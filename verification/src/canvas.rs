//! The course-room side of the sync: rooms, sections, assignments and
//! submissions, as plain values.  Only assignments mapped to a registry
//! course-moment through their integration identifier take part in the
//! sync, and only submissions that carry a grade.

use vstd::prelude::*;

use crate::dates::OffsetTimestamp;

verus! {

/// One external course instance.  A sync cannot proceed without its
/// `integration_id`, the registry course-round it stands for.
#[derive(Clone, Debug, PartialEq)]
pub struct CourseRoom {
    pub integration_id: Option<String>,
}

/// A section of a course room; its `integration_id` may carry a
/// registry course-round identifier.
#[derive(Clone, Debug, PartialEq)]
pub struct CourseSection {
    pub name: Option<String>,
    pub integration_id: Option<String>,
}

/// One gradable activity; `integration_id` maps it to a registry
/// course-moment.
#[derive(Clone, Debug, PartialEq)]
pub struct Assignment {
    pub id: i32,
    pub integration_id: Option<String>,
}

/// A course-room user; `integration_id` carries the student's registry
/// identifier.
#[derive(Clone, Debug, PartialEq)]
pub struct User {
    pub id: u32,
    pub name: Option<String>,
    pub integration_id: Option<String>,
}

/// One student's work product for one assignment.  A submission with
/// no grade is excluded from the sync.
#[derive(Clone, Debug, PartialEq)]
pub struct Submission {
    pub assignment_id: Option<i32>,
    pub grade: Option<String>,
    pub user: Option<User>,
    pub graded_at: Option<OffsetTimestamp>,
    pub grader_id: Option<i32>,
}

} // verus!
