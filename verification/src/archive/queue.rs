//! The queue of bookmarks that wait to be archived, and the one worker that
//! takes them from it.
//!
//! - The queue holds at most `QUEUE_CAPACITY` waiting jobs; a job that comes
//!   when it is full is dropped.
//! - Jobs are started in the order in which they were accepted, one at a
//!   time: the next is started only when the one before it was saved.
//! - A job that fails is recorded as failed and is not tried again.
//!
//! The queue decides; it neither fetches nor stores. Whoever drives it tells
//! it what happened and does what it answers.

use std::collections::VecDeque;
use vstd::prelude::*;
use crate::archive::error::FetchError;
use crate::archive::readability::Article;
use crate::archive::views::result_view;
use crate::db::archives::{Archive, NewArchive, NewArchiveView};

verus! {

/// The number of jobs that can wait. Jobs beyond it are dropped.
pub const QUEUE_CAPACITY: usize = 10;

/// What archival reads of a bookmark.
#[derive(Clone, Debug, PartialEq, Eq)]
pub struct Bookmark {
    pub id: u128,
    pub url: String,
}

/// A request to archive a bookmark. `respond_to` is where the outcome is
/// sent once the job is done; the queue carries it and never looks into it.
#[derive(Clone, Debug, PartialEq, Eq)]
pub struct ArchiveJob<R> {
    pub bookmark: Bookmark,
    pub respond_to: R,
}

/// What the worker is doing.
#[derive(Debug, PartialEq, Eq)]
pub enum Worker<R> {
    /// No job is running.
    Idle,
    /// The page of the job is being fetched and made readable.
    Fetching(ArchiveJob<R>),
    /// The record of the job is being stored.
    Saving(ArchiveJob<R>),
}

/// The outcome of a job on its way to whoever asked for it: the stored
/// archive, or why storing failed.
#[derive(Debug, PartialEq, Eq)]
pub struct Reply<R> {
    pub respond_to: R,
    pub archive: Result<Archive, String>,
}

/// The state of the queue: the jobs that wait, oldest first, and the worker.
pub struct QueueView<R> {
    pub pending: Seq<ArchiveJob<R>>,
    pub worker: Worker<R>,
}

impl<R> QueueView<R> {
    /// The queue at the start: nothing waits, nothing runs.
    pub open spec fn start() -> QueueView<R> {
        QueueView { pending: Seq::empty(), worker: Worker::Idle }
    }

    /// Whether there is room for one more waiting job.
    pub open spec fn has_room(self) -> bool {
        self.pending.len() < QUEUE_CAPACITY
    }

    /// The queue after a job came: it waits behind all others where there is
    /// room, and is dropped where there is none.
    pub open spec fn enqueue(self, job: ArchiveJob<R>) -> QueueView<R> {
        if self.has_room() {
            QueueView { pending: self.pending.push(job), worker: self.worker }
        } else {
            self
        }
    }

    /// Whether the worker can take a job: it is idle and a job waits.
    pub open spec fn can_start(self) -> bool {
        self.worker is Idle && self.pending.len() > 0
    }

    /// The queue after the worker asked for a job: where it can take one, it
    /// takes the oldest.
    pub open spec fn start_next(self) -> QueueView<R> {
        if self.can_start() {
            QueueView {
                pending: self.pending.drop_first(),
                worker: Worker::Fetching(self.pending[0]),
            }
        } else {
            self
        }
    }

    /// The queue after the running job's page was fetched, or not: the job
    /// goes on to be saved either way.
    pub open spec fn fetched(self) -> QueueView<R> {
        match self.worker {
            Worker::Fetching(job) => QueueView {
                pending: self.pending,
                worker: Worker::Saving(job),
            },
            _ => self,
        }
    }

    /// The queue after the running job's record was stored, or not: the job
    /// is done either way, and the worker is idle.
    pub open spec fn saved(self) -> QueueView<R> {
        match self.worker {
            Worker::Saving(_) => QueueView { pending: self.pending, worker: Worker::Idle },
            _ => self,
        }
    }

    /// The job that is running, as a sequence of one or none.
    pub open spec fn running(self) -> Seq<ArchiveJob<R>> {
        match self.worker {
            Worker::Idle => Seq::empty(),
            Worker::Fetching(job) => seq![job],
            Worker::Saving(job) => seq![job],
        }
    }
}

/// The queue of archival jobs with its single worker.
pub struct ArchiveQueue<R> {
    pending: VecDeque<ArchiveJob<R>>,
    worker: Worker<R>,
}

impl<R> View for ArchiveQueue<R> {
    type V = QueueView<R>;

    closed spec fn view(&self) -> QueueView<R> {
        QueueView { pending: self.pending@, worker: self.worker }
    }
}

impl<R> ArchiveQueue<R> {
    #[verifier::type_invariant]
    spec fn within_capacity(self) -> bool {
        self.pending@.len() <= QUEUE_CAPACITY
    }

    /// An empty queue with an idle worker.
    pub fn new() -> (queue: ArchiveQueue<R>)
        ensures
            queue@ == QueueView::<R>::start(),
    {
        ArchiveQueue { pending: VecDeque::new(), worker: Worker::Idle }
    }

    /// The number of jobs that wait.
    pub fn pending_len(&self) -> (len: usize)
        ensures
            len == self@.pending.len(),
            len <= QUEUE_CAPACITY,
    {
        proof {
            use_type_invariant(self);
        }
        self.pending.len()
    }

    /// Whether no job is running.
    pub fn is_idle(&self) -> (idle: bool)
        ensures
            idle == self@.worker is Idle,
    {
        match &self.worker {
            Worker::Idle => true,
            _ => false,
        }
    }

    /// Takes a job in, behind all that wait, or drops it where the queue is
    /// full. The caller is never held up; the answer says whether the job
    /// was accepted.
    pub fn enqueue(&mut self, job: ArchiveJob<R>) -> (accepted: bool)
        ensures
            accepted == old(self)@.has_room(),
            final(self)@ == old(self)@.enqueue(job),
    {
        if self.pending.len() < QUEUE_CAPACITY {
            let mut pending = VecDeque::new();
            core::mem::swap(&mut self.pending, &mut pending);
            pending.push_back(job);
            self.pending = pending;
            true
        } else {
            false
        }
    }

    /// Starts the oldest waiting job where the worker is idle, and answers
    /// with the URL to fetch. Nothing is started while a job runs, nor
    /// where none waits.
    pub fn start_next(&mut self) -> (url: Option<String>)
        ensures
            final(self)@ == old(self)@.start_next(),
            url is Some <==> old(self)@.can_start(),
            url matches Some(text) ==> text == old(self)@.pending[0].bookmark.url,
    {
        proof {
            use_type_invariant(&*self);
        }
        if !self.is_idle() {
            return None;
        }
        let mut pending = VecDeque::new();
        core::mem::swap(&mut self.pending, &mut pending);
        let oldest = pending.pop_front();
        self.pending = pending;
        match oldest {
            None => None,
            Some(job) => {
                let url = job.bookmark.url.clone();
                self.worker = Worker::Fetching(job);
                Some(url)
            },
        }
    }

    /// Takes what fetching and extraction came to for the running job, and
    /// answers with the record to store: that of a success or that of a
    /// failure, for the job's bookmark. Out of turn, it changes nothing and
    /// answers with nothing.
    pub fn fetched(&mut self, article: Result<Article, FetchError>) -> (record: Option<NewArchive>)
        ensures
            final(self)@ == old(self)@.fetched(),
            record is Some <==> old(self)@.worker is Fetching,
            record matches Some(new_archive) ==> new_archive@ == NewArchiveView::of_attempt(
                old(self)@.worker->Fetching_0.bookmark.id,
                result_view(article),
            ) && new_archive@.wf(),
    {
        proof {
            use_type_invariant(&*self);
        }
        let mut worker = Worker::Idle;
        core::mem::swap(&mut self.worker, &mut worker);
        match worker {
            Worker::Fetching(job) => {
                let record = NewArchive::new(job.bookmark.id, article);
                self.worker = Worker::Saving(job);
                Some(record)
            },
            other => {
                self.worker = other;
                None
            },
        }
    }

    /// Takes what storing the record came to, ends the running job, and
    /// answers with the reply for whoever asked for it. Out of turn, it
    /// changes nothing and answers with nothing.
    pub fn saved(&mut self, archive: Result<Archive, String>) -> (reply: Option<Reply<R>>)
        ensures
            final(self)@ == old(self)@.saved(),
            reply is Some <==> old(self)@.worker is Saving,
            reply matches Some(answer) ==> answer.archive == archive && answer.respond_to == old(
                self,
            )@.worker->Saving_0.respond_to,
    {
        proof {
            use_type_invariant(&*self);
        }
        let mut worker = Worker::Idle;
        core::mem::swap(&mut self.worker, &mut worker);
        match worker {
            Worker::Saving(job) => Some(Reply { respond_to: job.respond_to, archive }),
            other => {
                self.worker = other;
                None
            },
        }
    }
}

} // verus!
