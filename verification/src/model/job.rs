//! The job record, its two transitions and what can be asked of it.

use crate::model::clock::{local_now, Timestamp};
use crate::model::sql::{insert_values, insert_values_text};
use vstd::prelude::*;

verus! {

/// One unit of deferred work.
///
/// The stage of a job is read from which fields are present: a job counts
/// as started once `started_by` is set, and as completed once it is started
/// and `completed_at` is set. A transition consumes the job and returns the
/// next one; no check guards it.
#[derive(Debug)]
pub struct Job {
    /// The identity that the store gave the job; absent until it is stored.
    pub id: Option<usize>,
    /// The payload of the task.
    pub load: String,
    /// A hint of the relative cost.
    pub difficulty: u8,
    /// When the last start happened.
    pub started_at: Option<Timestamp>,
    /// When the job was finished.
    pub completed_at: Option<Timestamp>,
    /// Whether the job may start once only.
    pub persistant: bool,
    /// The executor that claimed the job last.
    pub started_by: Option<String>,
    /// The outcome of the task.
    pub result: Option<String>,
}

/// A job as a mathematical value: texts are sequences of characters.
pub struct JobView {
    pub id: Option<usize>,
    pub load: Seq<char>,
    pub difficulty: u8,
    pub started_at: Option<Timestamp>,
    pub completed_at: Option<Timestamp>,
    pub persistant: bool,
    pub started_by: Option<Seq<char>>,
    pub result: Option<Seq<char>>,
}

/// The characters of a text that may be absent.
pub open spec fn text_view(text: Option<String>) -> Option<Seq<char>> {
    match text {
        Some(s) => Some(s@),
        None => None,
    }
}

impl View for Job {
    type V = JobView;

    open spec fn view(&self) -> JobView {
        JobView {
            id: self.id,
            load: self.load@,
            difficulty: self.difficulty,
            started_at: self.started_at,
            completed_at: self.completed_at,
            persistant: self.persistant,
            started_by: text_view(self.started_by),
            result: text_view(self.result),
        }
    }
}

/// A copy of a text that may be absent.
fn clone_text(text: &Option<String>) -> (copy: Option<String>)
    ensures
        copy == *text,
{
    match text {
        Some(s) => Some(s.clone()),
        None => None,
    }
}

impl Clone for Job {
    fn clone(&self) -> (copy: Job)
        ensures
            copy == *self,
    {
        Job {
            id: self.id,
            load: self.load.clone(),
            difficulty: self.difficulty,
            started_at: self.started_at,
            completed_at: self.completed_at,
            persistant: self.persistant,
            started_by: clone_text(&self.started_by),
            result: clone_text(&self.result),
        }
    }
}

impl JobView {
    /// The job as it is constructed: nothing but the three given fields.
    pub open spec fn fresh(load: Seq<char>, difficulty: u8, persistant: bool) -> JobView {
        JobView {
            id: None,
            load,
            difficulty,
            started_at: None,
            completed_at: None,
            persistant,
            started_by: None,
            result: None,
        }
    }

    /// The job after executor `by` claimed it at the moment `at`. Earlier
    /// start data is overwritten; every other field stays.
    pub open spec fn started(self, by: Seq<char>, at: Timestamp) -> JobView {
        JobView { started_at: Some(at), started_by: Some(by), ..self }
    }

    /// The job after it ended with `result` at the moment `at`. Every other
    /// field stays.
    pub open spec fn finished(self, result: Seq<char>, at: Timestamp) -> JobView {
        JobView { completed_at: Some(at), result: Some(result), ..self }
    }

    /// An executor has claimed the job.
    pub open spec fn is_started(self) -> bool {
        self.started_by is Some
    }

    /// The job was started and has an end.
    pub open spec fn is_completed(self) -> bool {
        self.is_started() && self.completed_at is Some
    }

    /// The job may be started: it never was, or it is not persistent.
    pub open spec fn can_start(self) -> bool {
        !self.is_started() || !self.persistant
    }

    /// The store has given the job an identity.
    pub open spec fn is_db_stored(self) -> bool {
        self.id is Some
    }

    /// The value list under which the job is inserted.
    pub open spec fn sql_insert(self) -> Seq<char> {
        insert_values(self.load, self.difficulty, self.persistant)
    }
}

impl Job {
    /// A job that was neither stored nor started.
    pub fn new(load: &str, difficulty: u8, persistant: bool) -> (job: Job)
        ensures
            job@ == JobView::fresh(load@, difficulty, persistant),
    {
        Job {
            load: load.to_owned(),
            difficulty,
            persistant,
            started_at: None,
            started_by: None,
            completed_at: None,
            result: None,
            id: None,
        }
    }

    /// Claims the job for executor `by` at the moment `at`.
    pub fn start_at(self, by: &str, at: Timestamp) -> (job: Job)
        ensures
            job@ == self@.started(by@, at),
    {
        let mut job = self;
        job.started_at = Some(at);
        job.started_by = Some(by.to_owned());
        job
    }

    /// Claims the job for executor `by` now, by the local clock.
    pub fn start(self, by: &str) -> (job: Job)
        ensures
            job.started_at matches Some(at) && at.is_valid() && job@ == self@.started(by@, at),
    {
        let now = local_now();
        self.start_at(by, now)
    }

    /// Ends the job with `result` at the moment `at`.
    pub fn finish_at(self, result: &str, at: Timestamp) -> (job: Job)
        ensures
            job@ == self@.finished(result@, at),
    {
        let mut job = self;
        job.result = Some(result.to_owned());
        job.completed_at = Some(at);
        job
    }

    /// Ends the job with `result` now, by the local clock.
    pub fn finish(self, result: &str) -> (job: Job)
        ensures
            job.completed_at matches Some(at) && at.is_valid() && job@ == self@.finished(
                result@,
                at,
            ),
    {
        let now = local_now();
        self.finish_at(result, now)
    }

    /// Whether an executor has claimed the job.
    pub fn is_started(&self) -> (b: bool)
        ensures
            b == self@.is_started(),
    {
        self.started_by.is_some()
    }

    /// Whether the job was started and has an end.
    pub fn is_completed(&self) -> (b: bool)
        ensures
            b == self@.is_completed(),
    {
        self.is_started() && self.completed_at.is_some()
    }

    /// Whether the job may be started.
    pub fn can_start(&self) -> (b: bool)
        ensures
            b == self@.can_start(),
    {
        !self.is_started() || !self.persistant
    }

    /// Whether the store has given the job an identity.
    pub fn is_db_stored(&self) -> (b: bool)
        ensures
            b == self@.is_db_stored(),
    {
        self.id.is_some()
    }

    /// The value list under which the job is inserted: payload, difficulty
    /// and persistence flag, in this order. The payload is not escaped.
    pub fn to_sql_insert(&self) -> (text: String)
        ensures
            text@ == self@.sql_insert(),
    {
        insert_values_text(self.load.as_str(), self.difficulty, self.persistant)
    }
}

} // verus!
