//! What holds of the queue in every state that it can reach.

use vstd::prelude::*;
use crate::archive::queue::{ArchiveJob, QueueView, Worker, QUEUE_CAPACITY};

verus! {

/// One thing that happens to the queue.
pub enum QueueStep<R> {
    /// A job comes.
    Enqueue(ArchiveJob<R>),
    /// The worker asks for a job.
    StartNext,
    /// Fetching and extraction of the running job have ended, well or not.
    Fetched,
    /// Storing the record of the running job has ended, well or not.
    Saved,
}

/// What a run of steps made of the queue: the state that it is in, the jobs
/// that it accepted, and the jobs that it has done, each in order of time.
pub struct History<R> {
    pub queue: QueueView<R>,
    pub accepted: Seq<ArchiveJob<R>>,
    pub completed: Seq<ArchiveJob<R>>,
}

impl<R> QueueView<R> {
    /// The queue after one step.
    pub open spec fn advance(self, step: QueueStep<R>) -> QueueView<R> {
        match step {
            QueueStep::Enqueue(job) => self.enqueue(job),
            QueueStep::StartNext => self.start_next(),
            QueueStep::Fetched => self.fetched(),
            QueueStep::Saved => self.saved(),
        }
    }
}

impl<R> History<R> {
    /// The history after one more step: a job that comes is accepted where
    /// there is room, and the running job is done once it was saved.
    pub open spec fn advance(self, step: QueueStep<R>) -> History<R> {
        History {
            queue: self.queue.advance(step),
            accepted: match step {
                QueueStep::Enqueue(job) => if self.queue.has_room() {
                    self.accepted.push(job)
                } else {
                    self.accepted
                },
                _ => self.accepted,
            },
            completed: match (step, self.queue.worker) {
                (QueueStep::Saved, Worker::Saving(job)) => self.completed.push(job),
                _ => self.completed,
            },
        }
    }
}

/// The history of a run of steps from the empty queue.
pub open spec fn replay<R>(steps: Seq<QueueStep<R>>) -> History<R>
    decreases steps.len(),
{
    if steps.len() == 0 {
        History { queue: QueueView::start(), accepted: Seq::empty(), completed: Seq::empty() }
    } else {
        replay(steps.drop_last()).advance(steps.last())
    }
}

/// First in, first out. Whatever happens in whatever order, the jobs that
/// are done, then the job that runs, then the jobs that wait are the jobs
/// that were accepted, in the order in which they were accepted: no job
/// overtakes another, none is done twice, and none that was accepted is
/// lost. Never do more than `QUEUE_CAPACITY` jobs wait.
pub proof fn law_jobs_are_done_in_order_of_acceptance<R>(steps: Seq<QueueStep<R>>)
    ensures
        replay(steps).completed + replay(steps).queue.running() + replay(steps).queue.pending
            == replay(steps).accepted,
        replay(steps).queue.pending.len() <= QUEUE_CAPACITY,
    decreases steps.len(),
{
    if steps.len() > 0 {
        law_jobs_are_done_in_order_of_acceptance(steps.drop_last());
        let before = replay(steps.drop_last());
        let after = replay(steps);
        assert(after.completed + after.queue.running() + after.queue.pending =~= after.accepted);
    } else {
        assert(replay(steps).completed + replay(steps).queue.running() + replay(
            steps,
        ).queue.pending =~= replay(steps).accepted);
    }
}

/// One job at a time. While a job runs, asking for the next changes
/// nothing: the next job is started only after the running one was saved.
pub proof fn law_one_job_at_a_time<R>(queue: QueueView<R>)
    requires
        !(queue.worker is Idle),
    ensures
        queue.start_next() == queue,
{
}

/// A job that fails holds up nothing. However fetching, extraction and
/// storing end for the running job, the jobs that wait are untouched, the
/// worker is idle afterwards, and the job that it takes then is the oldest
/// that waits.
pub proof fn law_failed_job_holds_up_nothing<R>(queue: QueueView<R>)
    requires
        queue.worker is Fetching,
    ensures
        queue.fetched().saved().worker is Idle,
        queue.fetched().saved().pending == queue.pending,
        queue.pending.len() > 0 ==> queue.fetched().saved().start_next().worker
            == Worker::Fetching(queue.pending[0]),
{
}

/// A full queue drops what comes and keeps what it has.
pub proof fn law_full_queue_drops<R>(queue: QueueView<R>, job: ArchiveJob<R>)
    requires
        queue.pending.len() >= QUEUE_CAPACITY,
    ensures
        queue.enqueue(job) == queue,
{
}

} // verus!
