//! What holds of a job along its way from construction to completion.

use crate::model::clock::Timestamp;
use crate::model::job::JobView;
use vstd::prelude::*;

verus! {

/// A job as constructed carries its three given fields and nothing else: no
/// identity, no start data, no end, no result. It is therefore neither
/// stored, started nor completed, and it may start.
pub proof fn fresh_job_is_blank(load: Seq<char>, difficulty: u8, persistant: bool)
    ensures
        JobView::fresh(load, difficulty, persistant).load == load,
        JobView::fresh(load, difficulty, persistant).difficulty == difficulty,
        JobView::fresh(load, difficulty, persistant).persistant == persistant,
        JobView::fresh(load, difficulty, persistant).id is None,
        JobView::fresh(load, difficulty, persistant).started_at is None,
        JobView::fresh(load, difficulty, persistant).started_by is None,
        JobView::fresh(load, difficulty, persistant).completed_at is None,
        JobView::fresh(load, difficulty, persistant).result is None,
        !JobView::fresh(load, difficulty, persistant).is_db_stored(),
        !JobView::fresh(load, difficulty, persistant).is_started(),
        !JobView::fresh(load, difficulty, persistant).is_completed(),
        JobView::fresh(load, difficulty, persistant).can_start(),
{
}

/// Starting a job, whatever its history, records the executor and the
/// moment, makes it count as started, and changes no other field.
pub proof fn start_records_executor(job: JobView, by: Seq<char>, at: Timestamp)
    ensures
        job.started(by, at).started_by == Some(by),
        job.started(by, at).started_at == Some(at),
        job.started(by, at).is_started(),
        job.started(by, at).id == job.id,
        job.started(by, at).load == job.load,
        job.started(by, at).difficulty == job.difficulty,
        job.started(by, at).persistant == job.persistant,
        job.started(by, at).completed_at == job.completed_at,
        job.started(by, at).result == job.result,
{
}

/// Finishing a job records the result and the moment and changes no other
/// field; whether the job counts as completed then goes by whether it had
/// been started.
pub proof fn finish_records_result(job: JobView, result: Seq<char>, at: Timestamp)
    ensures
        job.finished(result, at).result == Some(result),
        job.finished(result, at).completed_at == Some(at),
        job.finished(result, at).is_completed() == job.is_started(),
        job.finished(result, at).id == job.id,
        job.finished(result, at).load == job.load,
        job.finished(result, at).difficulty == job.difficulty,
        job.finished(result, at).persistant == job.persistant,
        job.finished(result, at).started_at == job.started_at,
        job.finished(result, at).started_by == job.started_by,
{
}

/// A job that is started and then finished is completed, whatever it was
/// before and whenever the two steps happen.
pub proof fn started_then_finished_is_completed(
    job: JobView,
    by: Seq<char>,
    started_at: Timestamp,
    result: Seq<char>,
    completed_at: Timestamp,
)
    ensures
        job.started(by, started_at).finished(result, completed_at).is_completed(),
{
}

/// Of the four combinations of "started" and "persistent", only a started
/// persistent job may not start.
pub proof fn can_start_by_cases(job: JobView)
    ensures
        !job.is_started() && !job.persistant ==> job.can_start(),
        !job.is_started() && job.persistant ==> job.can_start(),
        job.is_started() && !job.persistant ==> job.can_start(),
        job.is_started() && job.persistant ==> !job.can_start(),
{
}

/// A persistent job may start once: after a start it may not start again,
/// also when it was finished in between. A job that is not persistent may
/// start after any history.
pub proof fn persistent_job_starts_once(
    job: JobView,
    by: Seq<char>,
    started_at: Timestamp,
    result: Seq<char>,
    completed_at: Timestamp,
)
    ensures
        job.started(by, started_at).can_start() == !job.persistant,
        job.started(by, started_at).finished(result, completed_at).can_start() == !job.persistant,
{
}

/// A job counts as stored exactly when it has an identity; neither
/// transition gives or takes one.
pub proof fn stored_iff_identified(job: JobView, text: Seq<char>, at: Timestamp)
    ensures
        job.is_db_stored() <==> job.id is Some,
        job.started(text, at).is_db_stored() == job.is_db_stored(),
        job.finished(text, at).is_db_stored() == job.is_db_stored(),
{
}

} // verus!
