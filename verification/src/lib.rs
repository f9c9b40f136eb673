//! A job record: one unit of deferred work, followed from construction
//! through its start and its completion, with the text it is stored under.

pub mod model;
