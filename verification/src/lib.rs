//! Automatic grading of student web-project submissions.
//!
//! The library evaluates a fixed six-item rubric over a submission:
//! presence of required files, an identifying comment in the entry
//! script, a server listening on the grading port, an HTML root
//! response, and an identity marker inside that response. All file,
//! process and network observations are handed in as plain values;
//! the grading decisions themselves are verified.

pub mod entities;
pub mod grader;
pub mod reporter;
pub mod text;
