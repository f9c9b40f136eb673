//! The job record and what it rests on.

pub mod clock;
pub mod job;
pub mod lifecycle;
pub mod sql;
