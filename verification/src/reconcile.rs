//! The reconciliation engine.  For one student and one course-moment it
//! compares the submitted grade and date against the existing draft
//! result and classifies the required registry action: create, update,
//! leave untouched, or skip.

use vstd::prelude::*;

use crate::cache::GradeScaleCache;
use crate::canvas::Submission;
use crate::dates::{local_date_of, Date};
use crate::errors::StudentError;
use crate::strutil::clone_opt_string;
use crate::types::{
    Betygsgrad, BetygsskalaID, SkapaResultat, SokresultatStudieresultatResultat, Studieresultat,
    UppdateraResultat,
};

verus! {

/// The action one submission requires of the registry.  Exactly one
/// outcome exists per student and course-moment; the string carried by
/// the first three variants is the resolved grade code, for the
/// per-student report.
#[derive(Clone, Debug, PartialEq)]
pub enum ChangeToLadok {
    Update(UppdateraResultat, String),
    Create(SkapaResultat, String),
    NoChange(String),
    NoGrade,
}

/// How a resolved grade and exam date stand against the student's
/// existing draft for the moment: equal on both counts is no change; a
/// missing draft calls for a create carrying a back-reference to the
/// result container; any difference calls for an update carrying the
/// draft's identifier and its concurrency token unchanged.
pub open spec fn classify_against_draft(
    one: Studieresultat,
    moment: String,
    skala: BetygsskalaID,
    grade: Betygsgrad,
    exam_date: Date,
) -> ChangeToLadok {
    match one.spec_arbetsunderlag(moment@) {
        Some(underlag) => if underlag.Betygsgrad == Some(grade.ID) && underlag.Examinationsdatum
            == Some(exam_date) {
            ChangeToLadok::NoChange(grade.Kod)
        } else {
            ChangeToLadok::Update(
                UppdateraResultat {
                    Uid: one.Uid,
                    Betygsgrad: Some(grade.ID),
                    BetygsskalaID: skala,
                    Examinationsdatum: Some(exam_date),
                    ResultatUID: underlag.Uid,
                    SenasteResultatandring: underlag.SenasteResultatandring,
                },
                grade.Kod,
            )
        },
        None => ChangeToLadok::Create(
            SkapaResultat {
                Uid: one.Uid,
                Betygsgrad: Some(grade.ID),
                BetygsskalaID: skala,
                Examinationsdatum: Some(exam_date),
                StudieresultatUID: one.Uid,
                UtbildningsinstansUID: Some(moment),
            },
            grade.Kod,
        ),
    }
}

/// The whole per-student decision: an ungraded submission is skipped;
/// then the student's result container, its grade scale, the submitted
/// grade code and the graded-at date must each resolve, every failure
/// terminal for this student alone; and what remains is judged against
/// the existing draft.
pub open spec fn classify(
    cache: GradeScaleCache,
    student: Seq<char>,
    resultat: SokresultatStudieresultatResultat,
    moment: String,
    sub: Submission,
) -> Result<ChangeToLadok, StudentError> {
    match sub.grade {
        None => Ok(ChangeToLadok::NoGrade),
        Some(grade_text) => match resultat.spec_find_student(student) {
            None => Err(StudentError::StudentNotFound),
            Some(one) => match one.spec_betygsskala() {
                None => Err(StudentError::MissingGradeScale),
                Some(skala) => match cache.spec_get_grade(skala, grade_text) {
                    Err(e) => Err(e),
                    Ok(grade) => match sub.graded_at {
                        None => Err(StudentError::MissingGradedAt),
                        Some(ga) => match local_date_of(ga.secs, ga.offset_secs) {
                            None => Err(StudentError::ExamDateOutOfRange),
                            Some(exam_date) => Ok(
                                classify_against_draft(one, moment, skala, grade, exam_date),
                            ),
                        },
                    },
                },
            },
        },
    }
}

/// Decide the registry action for one submission, exactly as
/// [`classify`] says.  The grade-scale cache is read, never written:
/// a scale not yet fetched is this student's `ScaleNotLoaded` error.
pub fn prepare_ladok_change(
    cache: &GradeScaleCache,
    student: &str,
    resultat: &SokresultatStudieresultatResultat,
    moment_id: &String,
    submission: &Submission,
) -> (r: Result<ChangeToLadok, StudentError>)
    ensures
        r == classify(*cache, student@, *resultat, *moment_id, *submission),
{
    let grade_text = match &submission.grade {
        Some(g) => g,
        None => {
            return Ok(ChangeToLadok::NoGrade);
        },
    };
    let one = match resultat.find_student(student) {
        Some(one) => one,
        None => {
            return Err(StudentError::StudentNotFound);
        },
    };
    let skala = match one.get_betygsskala() {
        Some(s) => s,
        None => {
            return Err(StudentError::MissingGradeScale);
        },
    };
    let grade = match cache.get_grade(skala, grade_text) {
        Ok(g) => g,
        Err(e) => {
            return Err(e);
        },
    };
    let ga = match &submission.graded_at {
        Some(ga) => *ga,
        None => {
            return Err(StudentError::MissingGradedAt);
        },
    };
    let exam_date = match ga.local_date() {
        Some(d) => d,
        None => {
            return Err(StudentError::ExamDateOutOfRange);
        },
    };
    match one.get_arbetsunderlag(moment_id.as_str()) {
        Some(underlag) => {
            let grade_same = match underlag.Betygsgrad {
                Some(g) => g == grade.ID,
                None => false,
            };
            let date_same = match underlag.Examinationsdatum {
                Some(d) => d == exam_date,
                None => false,
            };
            if grade_same && date_same {
                Ok(ChangeToLadok::NoChange(grade.Kod))
            } else {
                Ok(
                    ChangeToLadok::Update(
                        UppdateraResultat {
                            Uid: clone_opt_string(&one.Uid),
                            Betygsgrad: Some(grade.ID),
                            BetygsskalaID: skala,
                            Examinationsdatum: Some(exam_date),
                            ResultatUID: clone_opt_string(&underlag.Uid),
                            SenasteResultatandring: underlag.SenasteResultatandring,
                        },
                        grade.Kod,
                    ),
                )
            }
        },
        None => {
            Ok(
                ChangeToLadok::Create(
                    SkapaResultat {
                        Uid: clone_opt_string(&one.Uid),
                        Betygsgrad: Some(grade.ID),
                        BetygsskalaID: skala,
                        Examinationsdatum: Some(exam_date),
                        StudieresultatUID: clone_opt_string(&one.Uid),
                        UtbildningsinstansUID: Some(moment_id.clone()),
                    },
                    grade.Kod,
                ),
            )
        },
    }
}

} // verus!
