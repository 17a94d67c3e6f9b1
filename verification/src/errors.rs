//! Per-student reconciliation errors.  One malformed upstream record
//! must not block grading for a whole class, so these are recorded
//! against the one student and the run continues.

use vstd::prelude::*;
use vstd::string::StringExecFns;

use crate::types::BetygsskalaID;

verus! {

/// Why one student's submission could not be turned into a registry
/// change.  Each variant is terminal for that student only.
#[derive(Clone, Debug, PartialEq)]
pub enum StudentError {
    /// The student has no container in the fetched result set.
    StudentNotFound,
    /// The result container names no grade scale.
    MissingGradeScale,
    /// The named grade scale is not in the session cache.
    ScaleNotLoaded(BetygsskalaID),
    /// The submitted grade is not a code of the resolved scale.
    UnknownGrade { grade: String, scale: String },
    /// The submission carries a grade but no graded-at timestamp.
    MissingGradedAt,
    /// The graded-at timestamp falls outside the calendar range.
    ExamDateOutOfRange,
    /// The submission's author carries no registry identifier.
    MissingStudentId,
}

/// The report text of an error, with the student spelled into it.
pub open spec fn spec_error_text(e: StudentError, student: Seq<char>) -> Seq<char> {
    match e {
        StudentError::StudentNotFound => "Student "@ + student + " not in Ladok result-list"@,
        StudentError::MissingGradeScale => "Missing Betygskala for student "@ + student,
        StudentError::ScaleNotLoaded(_) => "Grade scale not fetched for student "@ + student,
        StudentError::UnknownGrade { grade, scale } => "Grade \""@ + grade@ + "\" not in "@
            + scale@,
        StudentError::MissingGradedAt => "Submission missing graded_at for student "@ + student,
        StudentError::ExamDateOutOfRange => "Graded-at timestamp out of range for student "@
            + student,
        StudentError::MissingStudentId => "Submission author has no Ladok id"@,
    }
}

impl StudentError {
    /// Render the error for the per-student report line.
    pub fn text(&self, student: &str) -> (r: String)
        ensures
            r@ == spec_error_text(*self, student@),
    {
        match self {
            StudentError::StudentNotFound => String::from_str("Student ").concat(student).concat(
                " not in Ladok result-list",
            ),
            StudentError::MissingGradeScale => String::from_str("Missing Betygskala for student ")
                .concat(student),
            StudentError::ScaleNotLoaded(_) => String::from_str(
                "Grade scale not fetched for student ",
            ).concat(student),
            StudentError::UnknownGrade { grade, scale } => String::from_str("Grade \"").concat(
                grade.as_str(),
            ).concat("\" not in ").concat(scale.as_str()),
            StudentError::MissingGradedAt => String::from_str(
                "Submission missing graded_at for student ",
            ).concat(student),
            StudentError::ExamDateOutOfRange => String::from_str(
                "Graded-at timestamp out of range for student ",
            ).concat(student),
            StudentError::MissingStudentId => String::from_str(
                "Submission author has no Ladok id",
            ),
        }
    }
}

} // verus!
