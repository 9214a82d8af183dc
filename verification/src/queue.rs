use vstd::prelude::*;

use crate::channel::completion_channel;
use crate::errors::DiffusionError;
use std::collections::HashMap;
use std::collections::VecDeque;

verus! {

broadcast use
    vstd::std_specs::hash::group_hash_axioms,
    vstd::std_specs::vecdeque::group_vec_dequeue_axioms,
;

/// The lifecycle states of an admitted job.
///
/// `Queued -> Processing -> {Completed | Failed}`; `Cancelled` belongs to the
/// vocabulary but no operation of this library produces it.
#[derive(Debug, Clone, Copy, PartialEq, Eq, Structural)]
pub enum JobStatus {
    Queued,
    Processing,
    Completed,
    Failed,
    Cancelled,
}

/// One admitted unit of work: its identity, its payload, and the producer
/// half of its completion channel. The sender half is owned by the job until
/// a worker dequeues it, then used exactly once.
#[verifier::reject_recursive_types(Res)]
pub struct Job<Req, Res> {
    pub id: u64,
    pub request: Req,
    pub response_tx: tokio::sync::oneshot::Sender<Result<Res, DiffusionError>>,
    pub status: JobStatus,
}

/// A bounded in-memory FIFO of pending jobs plus a status table keyed by job
/// id. Job ids are assigned from a counter, so ids grow with admission order
/// and never repeat. This is the state that a single lock must guard; every
/// operation below is one atomic step of the dispatch queue.
#[verifier::reject_recursive_types(Res)]
pub struct MemoryQueue<Req, Res> {
    queue: VecDeque<Job<Req, Res>>,
    jobs: HashMap<u64, JobStatus>,
    max_size: usize,
    next_id: u64,
}

impl<Req, Res> MemoryQueue<Req, Res> {
    /// The pending jobs, oldest first.
    pub closed spec fn spec_pending(&self) -> Seq<Job<Req, Res>> {
        self.queue@
    }

    /// The status table.
    pub closed spec fn spec_statuses(&self) -> Map<u64, JobStatus> {
        self.jobs@
    }

    /// The configured capacity.
    pub closed spec fn spec_max(&self) -> usize {
        self.max_size
    }

    /// The id the next admitted job will receive.
    pub closed spec fn spec_next_id(&self) -> u64 {
        self.next_id
    }

    /// The status table's answer for one id: the recorded status, or `None`
    /// for an id that was never admitted.
    pub open spec fn spec_status_of(&self, job_id: u64) -> Option<JobStatus> {
        if self.spec_statuses().contains_key(job_id) {
            Some(self.spec_statuses()[job_id])
        } else {
            None
        }
    }

    /// Well-formedness: the pending count never exceeds the capacity, ids of
    /// pending jobs grow strictly in queue order and stay below the counter,
    /// every pending job stands `Queued` in the status table, every recorded
    /// id lies below the counter (so an admission never overwrites an
    /// entry), and `Cancelled` — in the vocabulary, unreachable by design —
    /// is never recorded. Together these make a terminal status stable: no
    /// operation writes `Queued` or `Processing` over one.
    pub open spec fn wf(&self) -> bool {
        &&& self.spec_pending().len() <= self.spec_max()
        &&& forall|i: int|
            0 <= i < self.spec_pending().len() ==> #[trigger] self.spec_pending()[i].id
                < self.spec_next_id()
        &&& forall|i: int, j: int|
            0 <= i < j < self.spec_pending().len() ==> #[trigger] self.spec_pending()[i].id
                < #[trigger] self.spec_pending()[j].id
        &&& forall|i: int|
            0 <= i < self.spec_pending().len() ==> self.spec_statuses().contains_key(
                #[trigger] self.spec_pending()[i].id,
            ) && self.spec_statuses()[self.spec_pending()[i].id] == JobStatus::Queued
        &&& forall|id: u64|
            #[trigger] self.spec_statuses().contains_key(id) ==> id < self.spec_next_id()
                && self.spec_statuses()[id] != JobStatus::Cancelled
    }

    /// An empty queue with the given capacity.
    pub fn new(max_size: usize) -> (q: Self)
        ensures
            q.wf(),
            q.spec_pending() == Seq::<Job<Req, Res>>::empty(),
            q.spec_statuses() == Map::<u64, JobStatus>::empty(),
            q.spec_max() == max_size,
            q.spec_next_id() == 0,
    {
        Self { queue: VecDeque::new(), jobs: HashMap::new(), max_size, next_id: 0 }
    }

    /// Admits a request: constructs a job with a fresh id and a fresh
    /// completion channel, appends it to the pending sequence, records status
    /// `Queued`, and returns the id with the receiver half. Fails with
    /// `QueueFull`, touching nothing, when the queue is at capacity; fails
    /// with `Internal`, touching nothing, in the unreachable event that the
    /// id counter is spent.
    pub fn enqueue(&mut self, request: Req) -> (r: Result<
        (u64, tokio::sync::oneshot::Receiver<Result<Res, DiffusionError>>),
        DiffusionError,
    >)
        requires
            old(self).wf(),
        ensures
            final(self).wf(),
            final(self).spec_max() == old(self).spec_max(),
            old(self).spec_pending().len() >= old(self).spec_max() ==> ({
                &&& r matches Err(DiffusionError::QueueFull)
                &&& *final(self) == *old(self)
            }),
            (old(self).spec_pending().len() < old(self).spec_max() && old(self).spec_next_id()
                == u64::MAX) ==> ({
                &&& r matches Err(DiffusionError::Internal(_))
                &&& *final(self) == *old(self)
            }),
            (old(self).spec_pending().len() < old(self).spec_max() && old(self).spec_next_id()
                < u64::MAX) ==> ({
                &&& r matches Ok(p) && p.0 == old(self).spec_next_id()
                &&& final(self).spec_next_id() == old(self).spec_next_id() + 1
                &&& final(self).spec_pending().len() == old(self).spec_pending().len() + 1
                &&& final(self).spec_pending().drop_last() =~= old(self).spec_pending()
                &&& final(self).spec_pending().last().id == old(self).spec_next_id()
                &&& final(self).spec_pending().last().request == request
                &&& final(self).spec_pending().last().status == JobStatus::Queued
                &&& final(self).spec_statuses() =~= old(self).spec_statuses().insert(
                    old(self).spec_next_id(),
                    JobStatus::Queued,
                )
            }),
    {
        if self.queue.len() >= self.max_size {
            return Err(DiffusionError::QueueFull);
        }
        if self.next_id == u64::MAX {
            return Err(DiffusionError::Internal("job id space exhausted".to_owned()));
        }
        let job_id = self.next_id;
        let (tx, rx) = completion_channel::<Result<Res, DiffusionError>>();
        let job = Job { id: job_id, request, response_tx: tx, status: JobStatus::Queued };
        self.queue.push_back(job);
        self.jobs.insert(job_id, JobStatus::Queued);
        self.next_id = job_id + 1;
        Ok((job_id, rx))
    }

    /// Removes and returns the oldest pending job, if any, advancing its
    /// status to `Processing` in the same step. Returns `None`, touching
    /// nothing, when no job is pending.
    pub fn dequeue(&mut self) -> (r: Option<Job<Req, Res>>)
        requires
            old(self).wf(),
        ensures
            final(self).wf(),
            final(self).spec_max() == old(self).spec_max(),
            final(self).spec_next_id() == old(self).spec_next_id(),
            old(self).spec_pending().len() == 0 ==> ({
                &&& r is None
                &&& final(self).spec_pending() == old(self).spec_pending()
                &&& final(self).spec_statuses() == old(self).spec_statuses()
            }),
            old(self).spec_pending().len() > 0 ==> ({
                &&& r == Some(old(self).spec_pending()[0])
                &&& final(self).spec_pending() =~= old(self).spec_pending().drop_first()
                &&& final(self).spec_statuses() =~= old(self).spec_statuses().insert(
                    old(self).spec_pending()[0].id,
                    JobStatus::Processing,
                )
            }),
    {
        match self.queue.pop_front() {
            None => None,
            Some(job) => {
                self.jobs.insert(job.id, JobStatus::Processing);
                Some(job)
            },
        }
    }

    /// Read-only lookup in the status table; an unknown id is a distinct
    /// `None` outcome, never a default state.
    pub fn get_status(&self, job_id: u64) -> (r: Option<JobStatus>)
        ensures
            r == self.spec_status_of(job_id),
    {
        match self.jobs.get(&job_id) {
            Some(s) => Some(*s),
            None => None,
        }
    }

    /// Overwrite of an admitted, already dequeued job's status, used by
    /// workers to record terminal outcomes — and only those: a worker never
    /// writes `Queued`, `Processing` or `Cancelled`, so no terminal entry
    /// ever reverts to an earlier state. The pending sequence is untouched.
    pub fn update_status(&mut self, job_id: u64, status: JobStatus)
        requires
            old(self).wf(),
            old(self).spec_statuses().contains_key(job_id),
            status == JobStatus::Completed || status == JobStatus::Failed,
            forall|i: int|
                0 <= i < old(self).spec_pending().len() ==> (#[trigger] old(self).spec_pending()[i]).id
                    != job_id,
        ensures
            final(self).wf(),
            final(self).spec_max() == old(self).spec_max(),
            final(self).spec_next_id() == old(self).spec_next_id(),
            final(self).spec_pending() == old(self).spec_pending(),
            final(self).spec_statuses() =~= old(self).spec_statuses().insert(job_id, status),
    {
        self.jobs.insert(job_id, status);
    }

    /// The count of pending (admitted, not yet dequeued) jobs.
    pub fn queue_length(&self) -> (r: usize)
        ensures
            r == self.spec_pending().len(),
    {
        self.queue.len()
    }
}

/// The pending count never exceeds the configured capacity: admission keeps
/// the bound by rejecting with `QueueFull` instead of growing the queue.
pub proof fn lemma_pending_within_capacity<Req, Res>(q: &MemoryQueue<Req, Res>)
    requires
        q.wf(),
    ensures
        q.spec_pending().len() <= q.spec_max(),
{
}

/// Pending jobs stand in admission order: a job admitted earlier carries a
/// smaller id, and `dequeue` takes the head, so jobs leave in the order they
/// arrived (strict FIFO).
pub proof fn lemma_fifo_order<Req, Res>(q: &MemoryQueue<Req, Res>, i: int, j: int)
    requires
        q.wf(),
        0 <= i < j < q.spec_pending().len(),
    ensures
        q.spec_pending()[i].id < q.spec_pending()[j].id,
{
}

/// The head that `dequeue` removes is the oldest pending job: every other
/// pending job carries a larger id.
pub proof fn lemma_head_is_oldest<Req, Res>(q: &MemoryQueue<Req, Res>, j: int)
    requires
        q.wf(),
        0 < j < q.spec_pending().len(),
    ensures
        q.spec_pending()[0].id < q.spec_pending()[j].id,
{
}

/// A dequeued job leaves the pending sequence for good: its id stands on no
/// job that remains pending, so no second dequeue — from whichever worker —
/// can ever return it again.
pub proof fn lemma_dequeue_returns_each_job_once<Req, Res>(q: &MemoryQueue<Req, Res>, j: int)
    requires
        q.wf(),
        0 < q.spec_pending().len(),
        0 <= j < q.spec_pending().drop_first().len(),
    ensures
        q.spec_pending().drop_first()[j].id != q.spec_pending()[0].id,
{
    assert(q.spec_pending().drop_first()[j] == q.spec_pending()[j + 1]);
}

/// `Cancelled` belongs to the status vocabulary but no operation records it,
/// so a status query never answers `Cancelled`.
pub proof fn lemma_cancelled_never_recorded<Req, Res>(q: &MemoryQueue<Req, Res>, id: u64)
    requires
        q.wf(),
    ensures
        q.spec_status_of(id) != Some(JobStatus::Cancelled),
{
}

/// An admission records `Queued` only at a fresh id, never over an existing
/// entry: every recorded id lies below the counter, so a terminal status can
/// never revert to `Queued`.
pub proof fn lemma_fresh_id_unused<Req, Res>(q: &MemoryQueue<Req, Res>)
    requires
        q.wf(),
    ensures
        !q.spec_statuses().contains_key(q.spec_next_id()),
{
}

/// Every job still pending stands `Queued`: a dequeue writes `Processing`
/// only over a `Queued` entry, and a worker's update writes only terminal
/// statuses at ids no longer pending — so once a status is terminal, no
/// operation moves it back to `Queued` or `Processing`.
pub proof fn lemma_pending_jobs_stand_queued<Req, Res>(q: &MemoryQueue<Req, Res>, i: int)
    requires
        q.wf(),
        0 <= i < q.spec_pending().len(),
    ensures
        q.spec_status_of(q.spec_pending()[i].id) == Some(JobStatus::Queued),
{
}

/// What an operation wrote into the status table is exactly what the next
/// status query reads: `Queued` right after `enqueue`, `Processing` right
/// after `dequeue`, the terminal status right after a worker publishes an
/// outcome. The query itself is read-only and its answer a function of the
/// queue's state alone, so repeating it answers the same until the next
/// write.
pub proof fn lemma_status_follows_write<Req, Res>(
    before: &MemoryQueue<Req, Res>,
    after: &MemoryQueue<Req, Res>,
    id: u64,
    s: JobStatus,
)
    requires
        after.spec_statuses() == before.spec_statuses().insert(id, s),
    ensures
        after.spec_status_of(id) == Some(s),
{
}

} // verus!
