//! The two standing laws of the reconciliation engine: resolving a
//! grade sees only the upper-cased image of its spelling, and a sync
//! whose outcome the registry has applied reports no change when run
//! again on the same submissions.

use vstd::prelude::*;

use crate::cache::{spec_resolve, upper_code_is, GradeScaleCache};
use crate::canvas::Submission;
use crate::errors::StudentError;
use crate::firstmatch::{find_first, lemma_find_first_at, lemma_find_first_props};
use crate::reconcile::{classify, ChangeToLadok};
use crate::strutil::upper_vals;
use crate::types::{
    Betygsgrad, Betygskala, ResultatPaUtbildning, rpu_moment_is, SkapaResultat,
    SokresultatStudieresultatResultat, Studieresultat, student_uid_is, UppdateraResultat,
};

verus! {

/// Two predicates that agree on every element of a sequence find the
/// same first match.
proof fn lemma_find_first_equiv<T>(s: Seq<T>, p1: spec_fn(T) -> bool, p2: spec_fn(T) -> bool)
    requires
        forall|i: int| 0 <= i < s.len() ==> p1(#[trigger] s[i]) == p2(s[i]),
    ensures
        find_first(s, p1) == find_first(s, p2),
    decreases s.len(),
{
    if s.len() > 0 {
        assert(forall|j: int| 0 <= j < s.drop_first().len() ==> s.drop_first()[j] == s[j + 1]);
        lemma_find_first_equiv(s.drop_first(), p1, p2);
    }
}

/// Grade resolution is case-insensitive in the submitted text: two
/// spellings with the same ASCII upper-cased image resolve to the same
/// grade of any scale.
pub proof fn lemma_resolve_case_insensitive(k: Betygskala, a: Seq<char>, b: Seq<char>)
    requires
        upper_vals(a) == upper_vals(b),
    ensures
        spec_resolve(k, a) == spec_resolve(k, b),
{
    assert forall|i: int| 0 <= i < k.Betygsgrad@.len() implies upper_code_is(a)(
        #[trigger] k.Betygsgrad@[i],
    ) == upper_code_is(b)(k.Betygsgrad@[i]) by {}
    lemma_find_first_equiv(k.Betygsgrad@, upper_code_is(a), upper_code_is(b));
}

/// The same, lifted to the cache: when one spelling resolves, the other
/// resolves to the very same grade, and when one fails, both fail.
pub proof fn lemma_get_grade_case_insensitive(
    cache: GradeScaleCache,
    id: crate::types::BetygsskalaID,
    g1: String,
    g2: String,
)
    requires
        upper_vals(g1@) == upper_vals(g2@),
    ensures
        forall|b: Betygsgrad|
            cache.spec_get_grade(id, g1) == Ok::<Betygsgrad, StudentError>(b)
                ==> cache.spec_get_grade(id, g2) == Ok::<Betygsgrad, StudentError>(b),
        (cache.spec_get_grade(id, g1) is Err) == (cache.spec_get_grade(id, g2) is Err),
{
    match cache.spec_lookup(id) {
        Some(k) => {
            lemma_resolve_case_insensitive(k, g1@, g2@);
        },
        None => {},
    }
}

/// Does `b` hold the draft of `a` rewritten as the update `u` asked:
/// the new grade and date, the same course-moment?
pub open spec fn rpu_updated(
    a: ResultatPaUtbildning,
    b: ResultatPaUtbildning,
    u: UppdateraResultat,
) -> bool {
    match (a.Arbetsunderlag, b.Arbetsunderlag) {
        (Some(d1), Some(d2)) => {
            &&& d2.Betygsgrad == u.Betygsgrad
            &&& d2.Examinationsdatum == u.Examinationsdatum
            &&& d2.UtbildningsinstansUID == d1.UtbildningsinstansUID
        },
        _ => false,
    }
}

/// Does the entry hold a fresh draft carrying exactly what the create
/// payload asked?
pub open spec fn rpu_created(rpu: ResultatPaUtbildning, c: SkapaResultat) -> bool {
    match rpu.Arbetsunderlag {
        Some(d) => {
            &&& d.Betygsgrad == c.Betygsgrad
            &&& d.Examinationsdatum == c.Examinationsdatum
            &&& d.UtbildningsinstansUID == c.UtbildningsinstansUID
        },
        None => false,
    }
}

/// Is `two` the result container `one` after the registry applied the
/// outcome `c` for the course-moment `moment`?  The student and the
/// reporting context stand; a no-change outcome leaves everything; an
/// update rewrites exactly the moment's draft; a create appends one
/// entry holding the new draft.  The registry may stamp fresh record
/// identifiers and concurrency tokens as it pleases.
pub open spec fn entry_applied(
    one: Studieresultat,
    two: Studieresultat,
    moment: String,
    c: ChangeToLadok,
) -> bool {
    match c {
        ChangeToLadok::NoChange(_) => two == one,
        ChangeToLadok::NoGrade => two == one,
        ChangeToLadok::Update(u, _) => {
            &&& two.Student == one.Student
            &&& two.Rapporteringskontext == one.Rapporteringskontext
            &&& match find_first(one.ResultatPaUtbildningar@, rpu_moment_is(moment@)) {
                Some(i) => {
                    &&& two.ResultatPaUtbildningar@.len() == one.ResultatPaUtbildningar@.len()
                    &&& (forall|j: int|
                        0 <= j < one.ResultatPaUtbildningar@.len() && j != i
                            ==> two.ResultatPaUtbildningar@[j] == one.ResultatPaUtbildningar@[j])
                    &&& rpu_updated(
                        one.ResultatPaUtbildningar@[i],
                        two.ResultatPaUtbildningar@[i],
                        u,
                    )
                },
                None => false,
            }
        },
        ChangeToLadok::Create(cr, _) => {
            &&& two.Student == one.Student
            &&& two.Rapporteringskontext == one.Rapporteringskontext
            &&& two.ResultatPaUtbildningar@.len() == one.ResultatPaUtbildningar@.len() + 1
            &&& (forall|j: int|
                0 <= j < one.ResultatPaUtbildningar@.len()
                    ==> two.ResultatPaUtbildningar@[j] == one.ResultatPaUtbildningar@[j])
            &&& rpu_created(two.ResultatPaUtbildningar@.last(), cr)
        },
    }
}

/// Is `r2` the snapshot `r1` after the registry applied the outcome `c`
/// of the student `student` for the course-moment `moment`?  The
/// student's own container stands as [`entry_applied`] says; every
/// other container still belongs to the same student but may itself
/// have been rewritten by the rest of the batch.
pub open spec fn applied(
    r1: SokresultatStudieresultatResultat,
    r2: SokresultatStudieresultatResultat,
    student: Seq<char>,
    moment: String,
    c: ChangeToLadok,
) -> bool {
    match find_first(r1.Resultat@, student_uid_is(student)) {
        Some(i) => {
            &&& r2.Resultat@.len() == r1.Resultat@.len()
            &&& (forall|j: int|
                0 <= j < r1.Resultat@.len() && j != i ==> (#[trigger] r2.Resultat@[j]).Student
                    == r1.Resultat@[j].Student)
            &&& entry_applied(r1.Resultat@[i], r2.Resultat@[i], moment, c)
        },
        None => false,
    }
}

/// The grade code an outcome reports.
pub open spec fn outcome_code(c: ChangeToLadok) -> String
    recommends
        !(c is NoGrade),
{
    match c {
        ChangeToLadok::Update(_, kod) => kod,
        ChangeToLadok::Create(_, kod) => kod,
        ChangeToLadok::NoChange(kod) => kod,
        ChangeToLadok::NoGrade => arbitrary(),
    }
}

/// Idempotence of reconciliation: once the registry has applied the
/// outcome the engine computed from a snapshot, running the engine
/// again on the new snapshot and the unchanged submission reports no
/// change, under the same grade code.  (A submission without a grade is
/// skipped on every pass and so is out of scope here, as is one whose
/// classification failed.)
pub proof fn lemma_reconcile_idempotent(
    cache: GradeScaleCache,
    student: Seq<char>,
    r1: SokresultatStudieresultatResultat,
    r2: SokresultatStudieresultatResultat,
    moment: String,
    sub: Submission,
)
    requires
        classify(cache, student, r1, moment, sub) matches Ok(c) && !(c is NoGrade),
        applied(r1, r2, student, moment, classify(cache, student, r1, moment, sub)->Ok_0),
    ensures
        classify(cache, student, r2, moment, sub) == Ok::<ChangeToLadok, StudentError>(
            ChangeToLadok::NoChange(outcome_code(classify(cache, student, r1, moment, sub)->Ok_0)),
        ),
{
    let c = classify(cache, student, r1, moment, sub)->Ok_0;
    let p = student_uid_is(student);
    lemma_find_first_props(r1.Resultat@, p);
    assert(find_first(r1.Resultat@, p) is Some);
    let i = find_first(r1.Resultat@, p)->Some_0;
    let one1 = r1.Resultat@[i];
    let one2 = r2.Resultat@[i];
    assert forall|j: int| 0 <= j < i implies !p(#[trigger] r2.Resultat@[j]) by {
        assert(r2.Resultat@[j].Student == r1.Resultat@[j].Student);
        assert(!p(r1.Resultat@[j]));
    }
    assert(one2.Student == one1.Student);
    assert(p(one2));
    lemma_find_first_at(r2.Resultat@, p, i);
    assert(r2.spec_find_student(student) == Some(one2));
    assert(one2.spec_betygsskala() == one1.spec_betygsskala());
    let skala = one1.spec_betygsskala()->Some_0;
    let g = sub.grade->Some_0;
    let grade = cache.spec_get_grade(skala, g)->Ok_0;
    let q = rpu_moment_is(moment@);
    lemma_find_first_props(one1.ResultatPaUtbildningar@, q);
    match c {
        ChangeToLadok::NoChange(_) => {
            assert(one2 == one1);
        },
        ChangeToLadok::Update(u, _) => {
            assert(find_first(one1.ResultatPaUtbildningar@, q) is Some);
            let idx = find_first(one1.ResultatPaUtbildningar@, q)->Some_0;
            assert(forall|j: int|
                0 <= j < idx ==> one2.ResultatPaUtbildningar@[j]
                    == one1.ResultatPaUtbildningar@[j]);
            assert(rpu_updated(
                one1.ResultatPaUtbildningar@[idx],
                one2.ResultatPaUtbildningar@[idx],
                u,
            ));
            assert(q(one2.ResultatPaUtbildningar@[idx]));
            lemma_find_first_at(one2.ResultatPaUtbildningar@, q, idx);
            assert(one2.spec_arbetsunderlag(moment@)
                == one2.ResultatPaUtbildningar@[idx].Arbetsunderlag);
        },
        ChangeToLadok::Create(cr, _) => {
            assert(find_first(one1.ResultatPaUtbildningar@, q) is None);
            let len1 = one1.ResultatPaUtbildningar@.len() as int;
            assert(forall|j: int|
                0 <= j < len1 ==> one2.ResultatPaUtbildningar@[j]
                    == one1.ResultatPaUtbildningar@[j]);
            assert(rpu_created(one2.ResultatPaUtbildningar@[len1], cr));
            assert(cr.UtbildningsinstansUID == Some(moment));
            assert(q(one2.ResultatPaUtbildningar@[len1]));
            lemma_find_first_at(one2.ResultatPaUtbildningar@, q, len1);
            assert(one2.spec_arbetsunderlag(moment@)
                == one2.ResultatPaUtbildningar@[len1].Arbetsunderlag);
        },
        ChangeToLadok::NoGrade => {},
    }
}

} // verus!
