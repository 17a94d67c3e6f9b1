//! Verified core of a grade-synchronisation tool.
//!
//! Grades entered in a learning-management system ("Canvas") are
//! reconciled against draft results in an academic-records system
//! ("Ladok"): per student and course-moment the library decides whether
//! a result must be created, updated or left untouched, and plans the
//! batched submissions.  All network traffic is left to the caller; the
//! library holds the data model, the pagination and identifier parsing,
//! the grade-scale cache and the reconciliation rules.

pub mod cache;
pub mod canvas;
pub mod dates;
pub mod errors;
pub mod firstmatch;
pub mod flexid;
pub mod laws;
pub mod pagination;
pub mod reconcile;
pub mod report;
pub mod strutil;
pub mod types;
