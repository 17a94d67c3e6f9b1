//! The grade-scale cache: each scale is fetched from the registry once
//! per sync session and then served from memory.  The cache is owned by
//! one session and passed explicitly; the caller fetches a scale only
//! when [`GradeScaleCache::contains_scale`] says it is missing.

use vstd::prelude::*;
use vstd::string::StringExecFns;

use crate::errors::StudentError;
use crate::firstmatch::{
    find_first, lemma_find_first_at, lemma_find_first_none, lemma_find_first_props,
    lemma_find_first_push, lemma_find_first_push_nomatch,
};
use crate::strutil::{eq_upper, upper_matches};
use crate::types::{Betygsgrad, Betygskala, BetygsskalaID, SokresultatStudieresultatResultat};

verus! {

/// Is this the cache entry of the scale `id`?
pub open spec fn scale_id_is(id: BetygsskalaID) -> spec_fn((BetygsskalaID, Betygskala)) -> bool {
    |e: (BetygsskalaID, Betygskala)| e.0 == id
}

/// Does the grade's code, compared after ASCII upper-casing the
/// submitted text, spell exactly `kod`?
pub open spec fn upper_code_is(kod: Seq<char>) -> spec_fn(Betygsgrad) -> bool {
    |b: Betygsgrad| upper_matches(kod, b.Kod@)
}

/// The first grade of the scale that the submitted text resolves to,
/// after case normalization.
pub open spec fn spec_resolve(k: Betygskala, grade: Seq<char>) -> Option<Betygsgrad> {
    match find_first(k.Betygsgrad@, upper_code_is(grade)) {
        Some(i) => Some(k.Betygsgrad@[i]),
        None => None,
    }
}

/// The session's grade scales, keyed by scale identifier.
pub struct GradeScaleCache {
    pub entries: Vec<(BetygsskalaID, Betygskala)>,
}

impl GradeScaleCache {
    /// Each scale is stored at most once.
    pub open spec fn wf(self) -> bool {
        forall|i: int, j: int|
            0 <= i < j < self.entries@.len() ==> self.entries@[i].0 != self.entries@[j].0
    }

    /// The scale stored under `id`, if any.
    pub open spec fn spec_lookup(self, id: BetygsskalaID) -> Option<Betygskala> {
        match find_first(self.entries@, scale_id_is(id)) {
            Some(i) => Some(self.entries@[i].1),
            None => None,
        }
    }

    /// What resolving `grade` against the scale `id` yields: the grade
    /// code if the scale is cached and knows the (case-normalized)
    /// code, and the exact error otherwise.
    pub open spec fn spec_get_grade(self, id: BetygsskalaID, grade: String) -> Result<
        Betygsgrad,
        StudentError,
    > {
        match self.spec_lookup(id) {
            None => Err(StudentError::ScaleNotLoaded(id)),
            Some(k) => match spec_resolve(k, grade@) {
                Some(b) => Ok(b),
                None => Err(StudentError::UnknownGrade { grade: grade, scale: k.Kod }),
            },
        }
    }

    /// An empty cache for a fresh sync session.
    pub fn new() -> (r: GradeScaleCache)
        ensures
            r.entries@.len() == 0,
            r.wf(),
            forall|id: BetygsskalaID| r.spec_lookup(id) is None,
    {
        let r = GradeScaleCache { entries: Vec::new() };
        proof {
            assert forall|id: BetygsskalaID| r.spec_lookup(id) is None by {
                lemma_find_first_props(r.entries@, scale_id_is(id));
            }
        }
        r
    }

    /// Is the scale already cached?  Only when not does the session
    /// fetch it — once — from the registry.
    pub fn contains_scale(&self, id: BetygsskalaID) -> (r: bool)
        ensures
            r == (self.spec_lookup(id) is Some),
    {
        let n = self.entries.len();
        let mut i: usize = 0;
        while i < n
            invariant
                i <= n,
                n == self.entries@.len(),
                forall|j: int| 0 <= j < i ==> !(scale_id_is(id)(self.entries@[j])),
            decreases n - i,
        {
            if self.entries[i].0 == id {
                proof {
                    lemma_find_first_at(self.entries@, scale_id_is(id), i as int);
                }
                return true;
            }
            i = i + 1;
        }
        proof {
            lemma_find_first_none(self.entries@, scale_id_is(id));
        }
        false
    }

    /// Store a fetched scale under `id`.  A scale already cached stays
    /// as it is; every other entry is untouched either way.
    pub fn insert_scale(&mut self, id: BetygsskalaID, skala: Betygskala)
        ensures
            old(self).spec_lookup(id) is Some ==> final(self).entries@ == old(self).entries@,
            old(self).spec_lookup(id) is None ==> final(self).entries@ == old(self).entries@.push(
                (id, skala),
            ),
            old(self).spec_lookup(id) is None ==> final(self).spec_lookup(id) == Some(skala),
            forall|other: BetygsskalaID|
                other != id ==> final(self).spec_lookup(other) == old(self).spec_lookup(other),
            old(self).wf() ==> final(self).wf(),
    {
        if self.contains_scale(id) {
            return ;
        }
        let ghost pre = self.entries@;
        self.entries.push((id, skala));
        proof {
            lemma_find_first_push(pre, scale_id_is(id), (id, skala));
            assert forall|other: BetygsskalaID| other != id implies self.spec_lookup(other) == old(
                self,
            ).spec_lookup(other) by {
                lemma_find_first_push_nomatch(pre, scale_id_is(other), (id, skala));
                lemma_find_first_props(pre, scale_id_is(other));
                assert(self.entries@ == pre.push((id, skala)));
                match find_first(pre, scale_id_is(other)) {
                    Some(i) => {
                        assert(self.entries@[i] == pre[i]);
                    },
                    None => {},
                }
            }
            lemma_find_first_props(pre, scale_id_is(id));
            assert forall|i: int, j: int|
                0 <= i < j < self.entries@.len() && old(self).wf() implies self.entries@[i].0
                != self.entries@[j].0 by {
                if j == pre.len() as int {
                    assert(!(scale_id_is(id)(pre[i])));
                }
            }
        }
    }

    /// Resolve a submitted grade text against the scale `id`, as
    /// [`Self::spec_get_grade`] says: the comparison upper-cases the
    /// submitted text, never the stored codes.
    pub fn get_grade(&self, id: BetygsskalaID, grade: &String) -> (r: Result<
        Betygsgrad,
        StudentError,
    >)
        ensures
            r == self.spec_get_grade(id, *grade),
    {
        let n = self.entries.len();
        let mut i: usize = 0;
        while i < n
            invariant
                i <= n,
                n == self.entries@.len(),
                forall|j: int| 0 <= j < i ==> !(scale_id_is(id)(self.entries@[j])),
            decreases n - i,
        {
            if self.entries[i].0 == id {
                proof {
                    lemma_find_first_at(self.entries@, scale_id_is(id), i as int);
                }
                let k = &self.entries[i].1;
                let m = k.Betygsgrad.len();
                let mut j: usize = 0;
                while j < m
                    invariant
                        i < n,
                        n == self.entries@.len(),
                        *k == self.entries@[i as int].1,
                        self.spec_lookup(id) == Some(self.entries@[i as int].1),
                        j <= m,
                        m == k.Betygsgrad@.len(),
                        forall|l: int| 0 <= l < j ==> !(upper_code_is(grade@)(k.Betygsgrad@[l])),
                    decreases m - j,
                {
                    if eq_upper(grade.as_str(), k.Betygsgrad[j].Kod.as_str()) {
                        proof {
                            lemma_find_first_at(k.Betygsgrad@, upper_code_is(grade@), j as int);
                        }
                        let b = &k.Betygsgrad[j];
                        let out = Betygsgrad {
                            GiltigSomSlutbetyg: b.GiltigSomSlutbetyg,
                            ID: b.ID,
                            Kod: b.Kod.clone(),
                        };
                        proof {
                            assert(out == k.Betygsgrad@[j as int]);
                        }
                        return Ok(out);
                    }
                    j = j + 1;
                }
                proof {
                    lemma_find_first_none(k.Betygsgrad@, upper_code_is(grade@));
                }
                return Err(
                    StudentError::UnknownGrade { grade: grade.clone(), scale: k.Kod.clone() },
                );
            }
            i = i + 1;
        }
        proof {
            lemma_find_first_none(self.entries@, scale_id_is(id));
        }
        Err(StudentError::ScaleNotLoaded(id))
    }
}

/// Does some fetched result container name the scale `id`?
pub open spec fn names_scale(resultat: SokresultatStudieresultatResultat, id: BetygsskalaID) -> bool {
    exists|j: int|
        0 <= j < resultat.Resultat@.len() && resultat.Resultat@[j].spec_betygsskala() == Some(id)
}

/// The grade scales named by the fetched result containers that the
/// cache still lacks, each exactly once.  The session fetches these —
/// and only these — before reconciling the moment, so every scale is
/// fetched at most once per session.
pub fn missing_scales(cache: &GradeScaleCache, resultat: &SokresultatStudieresultatResultat) -> (r:
    Vec<BetygsskalaID>)
    ensures
        forall|k: int| 0 <= k < r@.len() ==> cache.spec_lookup(#[trigger] r@[k]) is None,
        forall|k: int| 0 <= k < r@.len() ==> names_scale(*resultat, #[trigger] r@[k]),
        forall|k: int, l: int| 0 <= k < l < r@.len() ==> r@[k] != r@[l],
        forall|i: int|
            0 <= i < resultat.Resultat@.len() ==> match (#[trigger] resultat.Resultat@[
                i
            ]).spec_betygsskala() {
                Some(id) => cache.spec_lookup(id) is Some || r@.contains(id),
                None => true,
            },
{
    let mut r: Vec<BetygsskalaID> = Vec::new();
    let n = resultat.Resultat.len();
    let mut i: usize = 0;
    while i < n
        invariant
            i <= n,
            n == resultat.Resultat@.len(),
            forall|k: int| 0 <= k < r@.len() ==> cache.spec_lookup(#[trigger] r@[k]) is None,
            forall|k: int| 0 <= k < r@.len() ==> names_scale(*resultat, #[trigger] r@[k]),
            forall|k: int, l: int| 0 <= k < l < r@.len() ==> r@[k] != r@[l],
            forall|j: int|
                0 <= j < i ==> match (#[trigger] resultat.Resultat@[j]).spec_betygsskala() {
                    Some(id) => cache.spec_lookup(id) is Some || r@.contains(id),
                    None => true,
                },
        decreases n - i,
    {
        match resultat.Resultat[i].get_betygsskala() {
            Some(id) => {
                if !cache.contains_scale(id) && !id_listed(&r, id) {
                    let ghost pre = r@;
                    r.push(id);
                    proof {
                        assert(resultat.Resultat@[i as int].spec_betygsskala() == Some(id));
                        assert(names_scale(*resultat, id));
                        assert(forall|k: int| 0 <= k < pre.len() ==> r@[k] == pre[k]);
                        assert(r@[pre.len() as int] == id);
                        assert forall|j: int|
                            0 <= j < i + 1 implies match (#[trigger] resultat.Resultat@[
                            j
                        ]).spec_betygsskala() {
                            Some(other) => cache.spec_lookup(other) is Some || r@.contains(other),
                            None => true,
                        } by {
                            if j < i {
                                match resultat.Resultat@[j].spec_betygsskala() {
                                    Some(other) => {
                                        if pre.contains(other) {
                                            let k = choose|k: int|
                                                0 <= k < pre.len() && pre[k] == other;
                                            assert(r@[k] == other);
                                        }
                                    },
                                    None => {},
                                }
                            } else {
                                assert(r@[pre.len() as int] == id);
                            }
                        }
                    }
                }
            },
            None => {},
        }
        i = i + 1;
    }
    r
}

/// Linear membership test for a small identifier list.
fn id_listed(v: &Vec<BetygsskalaID>, id: BetygsskalaID) -> (r: bool)
    ensures
        r == v@.contains(id),
{
    let n = v.len();
    let mut i: usize = 0;
    while i < n
        invariant
            i <= n,
            n == v@.len(),
            forall|j: int| 0 <= j < i ==> v@[j] != id,
        decreases n - i,
    {
        if v[i] == id {
            return true;
        }
        i = i + 1;
    }
    proof {
        assert(!v@.contains(id));
    }
    false
}

} // verus!
