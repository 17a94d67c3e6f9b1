//! The registry's record model, held as plain values: grade scales and
//! grade codes, a student's result container with its draft records, and
//! the request and response shapes of the search and submit endpoints.

#![allow(non_snake_case)]

use vstd::prelude::*;
use vstd::string::StringExecFns;

use crate::dates::{Date, Timestamp};
use crate::firstmatch::{find_first, lemma_find_first_at, lemma_find_first_none};
use crate::flexid::{decode_flexible_id, decode_spec, DecodeError, Scalar};
use crate::strutil::str_eq;

verus! {

/// Identifies one grade code within a grade scale; never zero.
#[derive(Clone, Copy, Debug, PartialEq, Eq, Structural)]
pub struct BetygsgradID(pub u32);

/// Identifies a grade scale; never zero.  On the wire it may arrive as
/// a bare number or as a quoted numeric string, so it is decoded through
/// the flexible scalar decoder.
#[derive(Clone, Copy, Debug, PartialEq, Eq, Structural)]
pub struct BetygsskalaID(pub u32);

impl BetygsskalaID {
    /// Is this a well-formed identifier?
    pub open spec fn wf(self) -> bool {
        self.0 > 0
    }

    /// Decode a scale identifier from a scalar of unknown shape.
    pub fn decode(v: &Scalar) -> (r: Result<BetygsskalaID, DecodeError>)
        ensures
            r == match decode_spec(*v) {
                Ok(n) => Ok::<BetygsskalaID, DecodeError>(BetygsskalaID(n)),
                Err(e) => Err::<BetygsskalaID, DecodeError>(e),
            },
            r matches Ok(id) ==> id.wf(),
    {
        match decode_flexible_id(v) {
            Ok(n) => Ok(BetygsskalaID(n)),
            Err(e) => Err(e),
        }
    }
}

/// Identifies the reporting institution.
#[derive(Clone, Copy, Debug, PartialEq, Eq, Structural)]
pub struct LarosateID(pub u32);

impl LarosateID {
    /// The institution every batch in this deployment reports for.
    pub fn kth() -> (r: LarosateID)
        ensures
            r == (LarosateID(29u32)),
    {
        LarosateID(29)
    }
}

/// One grade code of a grade scale: its code string, its identifier,
/// and whether it may stand as a final grade.
#[derive(Clone, Debug, PartialEq)]
pub struct Betygsgrad {
    pub GiltigSomSlutbetyg: bool,
    pub ID: BetygsgradID,
    pub Kod: String,
}

/// Does the grade carry exactly the code `kod`?
pub open spec fn grade_code_is(kod: Seq<char>) -> spec_fn(Betygsgrad) -> bool {
    |b: Betygsgrad| b.Kod@ == kod
}

/// A grade scale: an ordered list of grade codes, immutable once
/// fetched.
#[derive(Clone, Debug, PartialEq)]
pub struct Betygskala {
    pub Betygsgrad: Vec<Betygsgrad>,
    pub ID: BetygsskalaID,
    pub Kod: String,
}

impl Betygskala {
    /// The first grade of the scale whose code is exactly `kod`.
    pub open spec fn spec_get(&self, kod: Seq<char>) -> Option<Betygsgrad> {
        match find_first(self.Betygsgrad@, grade_code_is(kod)) {
            Some(i) => Some(self.Betygsgrad@[i]),
            None => None,
        }
    }

    /// Look a grade code up in the scale, by exact comparison.
    pub fn get(&self, kod: &str) -> (r: Option<&Betygsgrad>)
        ensures
            match r {
                Some(b) => self.spec_get(kod@) == Some(*b),
                None => self.spec_get(kod@) is None,
            },
    {
        let n = self.Betygsgrad.len();
        let mut i: usize = 0;
        while i < n
            invariant
                i <= n,
                n == self.Betygsgrad@.len(),
                forall|j: int| 0 <= j < i ==> !(grade_code_is(kod@)(self.Betygsgrad@[j])),
            decreases n - i,
        {
            if str_eq(self.Betygsgrad[i].Kod.as_str(), kod) {
                proof {
                    lemma_find_first_at(self.Betygsgrad@, grade_code_is(kod@), i as int);
                }
                return Some(&self.Betygsgrad[i]);
            }
            i = i + 1;
        }
        proof {
            lemma_find_first_none(self.Betygsgrad@, grade_code_is(kod@));
        }
        None
    }
}

/// A student, as the registry identifies one.
#[derive(Clone, Debug, PartialEq)]
pub struct Student {
    pub Uid: String,
}

/// The reporting context of a result container; carries the grade scale
/// the course-moment is graded on.
#[derive(Clone, Debug, PartialEq)]
pub struct Rapporteringskontext {
    pub Anonymiseringskod: Option<String>,
    pub BetygsskalaID: Option<BetygsskalaID>,
    pub KravPaHanvisningTillBeslutshandling: bool,
    pub KravPaProjekttitel: bool,
    pub UtbildningUID: String,
    pub UtbildningsinstansUID: String,
}

/// One result record: either a draft ("Arbetsunderlag") or an attested
/// result, with its grade, exam date and concurrency token.
#[derive(Clone, Debug, PartialEq)]
pub struct Resultat {
    pub Uid: Option<String>,
    pub AktivitetstillfalleUID: Option<String>,
    pub Betygsgrad: Option<BetygsgradID>,
    pub BetygsskalaID: Option<BetygsskalaID>,
    pub Examinationsdatum: Option<Date>,
    pub SenasteResultatandring: Option<Timestamp>,
    pub StudieresultatUID: Option<String>,
    pub UtbildningsinstansUID: Option<String>,
}

/// A student's results on one education unit: at most one live draft and
/// at most one attested result.
#[derive(Clone, Debug, PartialEq)]
pub struct ResultatPaUtbildning {
    pub Arbetsunderlag: Option<Resultat>,
    pub HarTillgodoraknande: Option<bool>,
    pub HeltTillgodoraknad: Option<bool>,
    pub KanExkluderas: Option<bool>,
    pub SenastAttesteradeResultat: Option<Resultat>,
    pub UtbildningUID: Option<String>,
}

/// Does the entry hold a draft for the course-moment `moment`?
pub open spec fn rpu_moment_is(moment: Seq<char>) -> spec_fn(ResultatPaUtbildning) -> bool {
    |r: ResultatPaUtbildning| match r.Arbetsunderlag {
        Some(au) => match au.UtbildningsinstansUID {
            Some(u) => u@ == moment,
            None => false,
        },
        None => false,
    }
}

/// One student's result container for a course, as the search endpoint
/// returns it.
#[derive(Clone, Debug, PartialEq)]
pub struct Studieresultat {
    pub LarosateID: Option<LarosateID>,
    pub SenastSparad: Option<Timestamp>,
    pub SenastAndradAv: Option<String>,
    pub Uid: Option<String>,
    pub AktuellKursinstans: Option<String>,
    pub AktuelltKurstillfalle: Option<String>,
    pub KursUID: Option<String>,
    pub Rapporteringskontext: Option<Rapporteringskontext>,
    pub ResultatPaUtbildningar: Vec<ResultatPaUtbildning>,
    pub SenastRegistrerad: Option<Timestamp>,
    pub Student: Option<Student>,
}

impl Studieresultat {
    /// The first draft record filed under the course-moment `moment`.
    pub open spec fn spec_arbetsunderlag(&self, moment: Seq<char>) -> Option<Resultat> {
        match find_first(self.ResultatPaUtbildningar@, rpu_moment_is(moment)) {
            Some(i) => self.ResultatPaUtbildningar@[i].Arbetsunderlag,
            None => None,
        }
    }

    /// Scan the per-education entries for the draft belonging to the
    /// course-moment `kurstillf`; at most one live draft exists per
    /// moment by registry invariant.
    pub fn get_arbetsunderlag(&self, kurstillf: &str) -> (r: Option<&Resultat>)
        ensures
            match r {
                Some(au) => self.spec_arbetsunderlag(kurstillf@) == Some(*au),
                None => self.spec_arbetsunderlag(kurstillf@) is None,
            },
    {
        let n = self.ResultatPaUtbildningar.len();
        let mut i: usize = 0;
        while i < n
            invariant
                i <= n,
                n == self.ResultatPaUtbildningar@.len(),
                forall|j: int| 0 <= j < i
                    ==> !(rpu_moment_is(kurstillf@)(self.ResultatPaUtbildningar@[j])),
            decreases n - i,
        {
            match &self.ResultatPaUtbildningar[i].Arbetsunderlag {
                Some(au) => {
                    match &au.UtbildningsinstansUID {
                        Some(u) => {
                            if str_eq(u.as_str(), kurstillf) {
                                proof {
                                    lemma_find_first_at(
                                        self.ResultatPaUtbildningar@,
                                        rpu_moment_is(kurstillf@),
                                        i as int,
                                    );
                                }
                                return Some(au);
                            }
                        },
                        None => {},
                    }
                },
                None => {},
            }
            i = i + 1;
        }
        proof {
            lemma_find_first_none(self.ResultatPaUtbildningar@, rpu_moment_is(kurstillf@));
        }
        None
    }

    /// The grade scale named in the reporting context, if any.
    pub open spec fn spec_betygsskala(&self) -> Option<BetygsskalaID> {
        match self.Rapporteringskontext {
            Some(rk) => rk.BetygsskalaID,
            None => None,
        }
    }

    /// Read the grade scale out of the reporting context; its absence is
    /// a terminal error for this one student.
    pub fn get_betygsskala(&self) -> (r: Option<BetygsskalaID>)
        ensures
            r == self.spec_betygsskala(),
    {
        match &self.Rapporteringskontext {
            Some(rk) => rk.BetygsskalaID,
            None => None,
        }
    }
}

/// Is this the result container of the student with identifier `uid`?
pub open spec fn student_uid_is(uid: Seq<char>) -> spec_fn(Studieresultat) -> bool {
    |r: Studieresultat| match r.Student {
        Some(st) => st.Uid@ == uid,
        None => false,
    }
}

/// What the paginated result search returns: the containers fetched so
/// far and the total the registry holds.
#[derive(Clone, Debug, PartialEq)]
pub struct SokresultatStudieresultatResultat {
    pub Resultat: Vec<Studieresultat>,
    pub TotaltAntalPoster: usize,
}

impl SokresultatStudieresultatResultat {
    /// The first container belonging to the student `uid`.
    pub open spec fn spec_find_student(&self, uid: Seq<char>) -> Option<Studieresultat> {
        match find_first(self.Resultat@, student_uid_is(uid)) {
            Some(i) => Some(self.Resultat@[i]),
            None => None,
        }
    }

    /// Linear lookup of a student's result container by identifier.
    pub fn find_student(&self, uid: &str) -> (r: Option<&Studieresultat>)
        ensures
            match r {
                Some(one) => self.spec_find_student(uid@) == Some(*one),
                None => self.spec_find_student(uid@) is None,
            },
    {
        let n = self.Resultat.len();
        let mut i: usize = 0;
        while i < n
            invariant
                i <= n,
                n == self.Resultat@.len(),
                forall|j: int| 0 <= j < i ==> !(student_uid_is(uid@)(self.Resultat@[j])),
            decreases n - i,
        {
            match &self.Resultat[i].Student {
                Some(st) => {
                    if str_eq(st.Uid.as_str(), uid) {
                        proof {
                            lemma_find_first_at(self.Resultat@, student_uid_is(uid@), i as int);
                        }
                        return Some(&self.Resultat[i]);
                    }
                },
                None => {},
            }
            i = i + 1;
        }
        proof {
            lemma_find_first_none(self.Resultat@, student_uid_is(uid@));
        }
        None
    }

    /// Has the whole result set been fetched?  While not, the next page
    /// must be requested with the same ordering parameters.
    pub fn is_complete(&self) -> (r: bool)
        ensures
            r == (self.Resultat@.len() >= self.TotaltAntalPoster),
    {
        self.Resultat.len() >= self.TotaltAntalPoster
    }

    /// Fold one further page into the set: items keep their page-arrival
    /// order, and the total reported by the first page stands.
    pub fn merge_page(&mut self, other: SokresultatStudieresultatResultat)
        ensures
            final(self).Resultat@ == old(self).Resultat@ + other.Resultat@,
            final(self).TotaltAntalPoster == old(self).TotaltAntalPoster,
    {
        let mut more = other.Resultat;
        self.Resultat.append(&mut more);
    }
}

/// The body of one page request against the result-search endpoint.
/// The ordering parameters must be held fixed across pages: without a
/// deterministic sort the registry returns duplicate and missing
/// students across page boundaries.
#[derive(Clone, Debug, PartialEq)]
pub struct StudieresultatForRapporteringSokVarden {
    pub Filtrering: Vec<String>,
    pub KurstillfallenUID: Vec<String>,
    pub Limit: u32,
    pub OrderBy: Vec<String>,
    pub Page: u32,
    pub UtbildningsinstansUID: Option<String>,
}

impl StudieresultatForRapporteringSokVarden {
    /// The first-page search request for draft and unhandled results of
    /// one course-round and course-moment, with the fixed ordering.
    pub fn first_page(kurstillf: &str, moment: &str) -> (r: Self)
        ensures
            r.Filtrering@.len() == 2,
            r.Filtrering@[0]@ == "OBEHANDLADE"@,
            r.Filtrering@[1]@ == "UTKAST"@,
            r.KurstillfallenUID@.len() == 1,
            r.KurstillfallenUID@[0]@ == kurstillf@,
            r.Limit == 100,
            r.OrderBy@.len() == 3,
            r.OrderBy@[0]@ == "EFTERNAMN_ASC"@,
            r.OrderBy@[1]@ == "FORNAMN_ASC"@,
            r.OrderBy@[2]@ == "PERSONNUMMER_ASC"@,
            r.Page == 1,
            r.UtbildningsinstansUID matches Some(u) && u@ == moment@,
    {
        StudieresultatForRapporteringSokVarden {
            Filtrering: vec![String::from_str("OBEHANDLADE"), String::from_str("UTKAST")],
            KurstillfallenUID: vec![String::from_str(kurstillf)],
            Limit: 100,
            OrderBy: vec![
                String::from_str("EFTERNAMN_ASC"),
                String::from_str("FORNAMN_ASC"),
                String::from_str("PERSONNUMMER_ASC"),
            ],
            Page: 1,
            UtbildningsinstansUID: Some(String::from_str(moment)),
        }
    }

    /// Step to the next page, leaving every other request parameter —
    /// the ordering above all — exactly as it was.
    pub fn next_page(&mut self)
        requires
            old(self).Page < u32::MAX,
        ensures
            final(self).Page == old(self).Page + 1,
            final(self).Filtrering == old(self).Filtrering,
            final(self).KurstillfallenUID == old(self).KurstillfallenUID,
            final(self).Limit == old(self).Limit,
            final(self).OrderBy == old(self).OrderBy,
            final(self).UtbildningsinstansUID == old(self).UtbildningsinstansUID,
    {
        self.Page = self.Page + 1;
    }
}

/// The payload that creates one new draft result.
#[derive(Clone, Debug, PartialEq)]
pub struct SkapaResultat {
    pub Uid: Option<String>,
    pub Betygsgrad: Option<BetygsgradID>,
    pub BetygsskalaID: BetygsskalaID,
    pub Examinationsdatum: Option<Date>,
    pub StudieresultatUID: Option<String>,
    pub UtbildningsinstansUID: Option<String>,
}

/// The payload that rewrites one existing draft result; carries the
/// draft's concurrency token through unchanged so the registry can
/// detect stale writes.
#[derive(Clone, Debug, PartialEq)]
pub struct UppdateraResultat {
    pub Uid: Option<String>,
    pub Betygsgrad: Option<BetygsgradID>,
    pub BetygsskalaID: BetygsskalaID,
    pub Examinationsdatum: Option<Date>,
    pub ResultatUID: Option<String>,
    pub SenasteResultatandring: Option<Timestamp>,
}

/// One atomic create request: the whole create queue of one
/// course-moment.
#[derive(Clone, Debug, PartialEq)]
pub struct SkapaFlera {
    pub LarosateID: LarosateID,
    pub Resultat: Vec<SkapaResultat>,
}

impl SkapaFlera {
    /// Plan the create submission.  An empty queue is never submitted;
    /// a non-empty queue becomes exactly one batch carrying every
    /// intent, in order.
    pub fn plan(data: Vec<SkapaResultat>) -> (r: Option<SkapaFlera>)
        ensures
            data@.len() == 0 ==> r is None,
            data@.len() > 0 ==> (r matches Some(b) && b.LarosateID == (LarosateID(29u32))
                && b.Resultat@ == data@),
    {
        if data.len() == 0 {
            None
        } else {
            Some(SkapaFlera { LarosateID: LarosateID::kth(), Resultat: data })
        }
    }
}

/// One atomic update request: the whole update queue of one
/// course-moment.
#[derive(Clone, Debug, PartialEq)]
pub struct UppdateraFlera {
    pub LarosateID: LarosateID,
    pub Resultat: Vec<UppdateraResultat>,
}

impl UppdateraFlera {
    /// Plan the update submission, under the same emptiness rule as the
    /// create side.
    pub fn plan(data: Vec<UppdateraResultat>) -> (r: Option<UppdateraFlera>)
        ensures
            data@.len() == 0 ==> r is None,
            data@.len() > 0 ==> (r matches Some(b) && b.LarosateID == (LarosateID(29u32))
                && b.Resultat@ == data@),
    {
        if data.len() == 0 {
            None
        } else {
            Some(UppdateraFlera { LarosateID: LarosateID::kth(), Resultat: data })
        }
    }
}

/// What the registry answers a batch submission with: one record per
/// applied result.
#[derive(Clone, Debug, PartialEq)]
pub struct ResultatLista {
    pub Resultat: Vec<Resultat>,
}

} // verus!
