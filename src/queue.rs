//! The job queue: all job records, one per block, with acquisition of the
//! oldest eligible job and the recording of outcomes.

use vstd::prelude::*;
use crate::job::{
    AcquireParams, JobRecord, JobStatus, acquired, eligible, failed, gives_up, is_eligible,
    acquire_record, record_failure, record_skipped, record_success, should_skip_proof,
};

verus! {

/// All job records, one per block.
pub struct JobQueue {
    pub jobs: Vec<JobRecord>,
}

/// What the processor does after a failure was recorded.
#[derive(Clone, Copy, Debug, PartialEq, Eq, Structural)]
pub enum FailureOutcome {
    /// No job of that block is known.
    UnknownJob,
    /// The job may be handed out again.
    WillRetry { attempts: u32 },
    /// Attempts are exhausted: the block is to be marked as not requiring a proof.
    GiveUp { attempts: u32 },
}

impl JobQueue {
    /// Block numbers are unique.
    pub open spec fn wf(&self) -> bool {
        forall|i: int, k: int|
            0 <= i < self.jobs@.len() && 0 <= k < self.jobs@.len() && i != k
                ==> #[trigger] self.jobs@[i].block_number != #[trigger] self.jobs@[k].block_number
    }

    /// An empty queue.
    pub fn new() -> (r: JobQueue)
        ensures
            r.wf(),
            r.jobs@.len() == 0,
    {
        JobQueue { jobs: Vec::new() }
    }

    /// Position of the record of `block`.
    pub fn find(&self, block: u32) -> (r: Option<usize>)
        ensures
            r matches Some(i) ==> i < self.jobs@.len() && self.jobs@[i as int].block_number == block,
            r is None ==> forall|i: int| 0 <= i < self.jobs@.len()
                ==> #[trigger] self.jobs@[i].block_number != block,
    {
        let mut i: usize = 0;
        while i < self.jobs.len()
            invariant
                i <= self.jobs@.len(),
                forall|k: int| 0 <= k < i ==> #[trigger] self.jobs@[k].block_number != block,
            decreases self.jobs@.len() - i,
        {
            if self.jobs[i].block_number == block {
                return Some(i);
            }
            i = i + 1;
        }
        None
    }

    /// Adds a queued job for `block`; returns false, changing nothing, if the
    /// block already has a job.
    pub fn enqueue(&mut self, block: u32) -> (added: bool)
        requires
            old(self).wf(),
        ensures
            final(self).wf(),
            added == forall|i: int| 0 <= i < old(self).jobs@.len()
                ==> #[trigger] old(self).jobs@[i].block_number != block,
            added ==> final(self).jobs@.len() == old(self).jobs@.len() + 1
                && final(self).jobs@.last().block_number == block
                && final(self).jobs@.last().status == JobStatus::Queued
                && final(self).jobs@.last().attempts == 0
                && final(self).jobs@.drop_last() == old(self).jobs@,
            !added ==> final(self).jobs@ == old(self).jobs@,
    {
        match self.find(block) {
            Some(_) => false,
            None => {
                let j = crate::job::new_job(block);
                self.jobs.push(j);
                assert(self.jobs@.drop_last() =~= old(self).jobs@);
                true
            },
        }
    }

    /// Hands out the eligible job with the smallest block number, marking it
    /// in progress with a lease ending `timeout` after `now`. Returns `None`,
    /// changing nothing, when no job is eligible.
    pub fn acquire(&mut self, params: AcquireParams) -> (r: Option<u32>)
        requires
            old(self).wf(),
        ensures
            final(self).wf(),
            final(self).jobs@.len() == old(self).jobs@.len(),
            r is None <==> forall|i: int| 0 <= i < old(self).jobs@.len()
                ==> !eligible(#[trigger] old(self).jobs@[i], params.now, params.max_attempts, params.last_block),
            r is None ==> final(self).jobs@ == old(self).jobs@,
            r matches Some(b) ==> exists|i: int| {
                &&& 0 <= i < old(self).jobs@.len()
                &&& #[trigger] old(self).jobs@[i].block_number == b
                &&& eligible(old(self).jobs@[i], params.now, params.max_attempts, params.last_block)
                &&& final(self).jobs@ == old(self).jobs@.update(i, acquired(old(self).jobs@[i], params.now, params.timeout))
            },
            r matches Some(b) ==> forall|i: int| 0 <= i < old(self).jobs@.len()
                && eligible(#[trigger] old(self).jobs@[i], params.now, params.max_attempts, params.last_block)
                ==> b <= old(self).jobs@[i].block_number,
    {
        let mut best: Option<usize> = None;
        let mut i: usize = 0;
        while i < self.jobs.len()
            invariant
                i <= self.jobs@.len(),
                best matches Some(k) ==> k < i && eligible(self.jobs@[k as int], params.now, params.max_attempts, params.last_block),
                best is None ==> forall|k: int| 0 <= k < i
                    ==> !eligible(#[trigger] self.jobs@[k], params.now, params.max_attempts, params.last_block),
                best matches Some(k) ==> forall|m: int| 0 <= m < i
                    && eligible(#[trigger] self.jobs@[m], params.now, params.max_attempts, params.last_block)
                    ==> self.jobs@[k as int].block_number <= self.jobs@[m].block_number,
            decreases self.jobs@.len() - i,
        {
            if is_eligible(&self.jobs[i], params.now, params.max_attempts, params.last_block) {
                match best {
                    None => {
                        best = Some(i);
                    },
                    Some(k) => {
                        if self.jobs[i].block_number < self.jobs[k].block_number {
                            best = Some(i);
                        }
                    },
                }
            }
            i = i + 1;
        }
        match best {
            None => None,
            Some(k) => {
                let b = self.jobs[k].block_number;
                acquire_record(&mut self.jobs[k], params.now, params.timeout);
                assert(old(self).jobs@[k as int].block_number == b);
                assert(self.wf()) by {
                    assert forall|x: int, y: int|
                        0 <= x < self.jobs@.len() && 0 <= y < self.jobs@.len() && x != y
                        implies #[trigger] self.jobs@[x].block_number != #[trigger] self.jobs@[y].block_number by {
                        assert(self.jobs@[x].block_number == old(self).jobs@[x].block_number);
                        assert(self.jobs@[y].block_number == old(self).jobs@[y].block_number);
                    }
                }
                Some(b)
            },
        }
    }

    /// Records a failure of the job of `block` and tells whether it will be
    /// retried or given up: it is given up once its attempts reach
    /// `max_attempts`.
    pub fn fail(&mut self, block: u32, error: String, max_attempts: u32) -> (r: FailureOutcome)
        requires
            old(self).wf(),
        ensures
            final(self).wf(),
            r is UnknownJob <==> forall|i: int| 0 <= i < old(self).jobs@.len()
                ==> #[trigger] old(self).jobs@[i].block_number != block,
            r is UnknownJob ==> final(self).jobs@ == old(self).jobs@,
            !(r is UnknownJob) ==> exists|i: int| {
                &&& 0 <= i < old(self).jobs@.len()
                &&& #[trigger] old(self).jobs@[i].block_number == block
                &&& final(self).jobs@ == old(self).jobs@.update(i, failed(old(self).jobs@[i], error))
                &&& r == if gives_up(failed(old(self).jobs@[i], error).attempts, max_attempts) {
                    FailureOutcome::GiveUp { attempts: failed(old(self).jobs@[i], error).attempts }
                } else {
                    FailureOutcome::WillRetry { attempts: failed(old(self).jobs@[i], error).attempts }
                }
            },
    {
        match self.find(block) {
            None => FailureOutcome::UnknownJob,
            Some(k) => {
                let attempts = record_failure(&mut self.jobs[k], error);
                assert(self.wf()) by {
                    assert forall|x: int, y: int|
                        0 <= x < self.jobs@.len() && 0 <= y < self.jobs@.len() && x != y
                        implies #[trigger] self.jobs@[x].block_number != #[trigger] self.jobs@[y].block_number by {
                        assert(self.jobs@[x].block_number == old(self).jobs@[x].block_number);
                        assert(self.jobs@[y].block_number == old(self).jobs@[y].block_number);
                    }
                }
                if should_skip_proof(attempts, max_attempts) {
                    FailureOutcome::GiveUp { attempts }
                } else {
                    FailureOutcome::WillRetry { attempts }
                }
            },
        }
    }

    /// Sets the status of the job of `block`; returns the status it had, or
    /// `None`, changing nothing, when the block has no job.
    pub fn set_status(&mut self, block: u32, status: JobStatus) -> (previous: Option<JobStatus>)
        requires
            old(self).wf(),
        ensures
            final(self).wf(),
            previous is None <==> forall|i: int| 0 <= i < old(self).jobs@.len()
                ==> #[trigger] old(self).jobs@[i].block_number != block,
            previous is None ==> final(self).jobs@ == old(self).jobs@,
            previous matches Some(p) ==> exists|i: int| {
                &&& 0 <= i < old(self).jobs@.len()
                &&& #[trigger] old(self).jobs@[i].block_number == block
                &&& p == old(self).jobs@[i].status
                &&& final(self).jobs@ == old(self).jobs@.update(i, JobRecord { status, ..old(self).jobs@[i] })
            },
    {
        match self.find(block) {
            None => None,
            Some(k) => {
                let p = self.jobs[k].status;
                match status {
                    JobStatus::Skipped => record_skipped(&mut self.jobs[k]),
                    _ => {
                        self.jobs[k].status = status;
                    },
                }
                assert(self.wf()) by {
                    assert forall|x: int, y: int|
                        0 <= x < self.jobs@.len() && 0 <= y < self.jobs@.len() && x != y
                        implies #[trigger] self.jobs@[x].block_number != #[trigger] self.jobs@[y].block_number by {
                        assert(self.jobs@[x].block_number == old(self).jobs@[x].block_number);
                        assert(self.jobs@[y].block_number == old(self).jobs@[y].block_number);
                    }
                }
                Some(p)
            },
        }
    }

    /// Marks the job of `block` as successful after `elapsed`; returns the
    /// status it had, or `None`, changing nothing, when the block has no job.
    pub fn complete(&mut self, block: u32, elapsed: u64) -> (previous: Option<JobStatus>)
        requires
            old(self).wf(),
        ensures
            final(self).wf(),
            previous is None <==> forall|i: int| 0 <= i < old(self).jobs@.len()
                ==> #[trigger] old(self).jobs@[i].block_number != block,
            previous is None ==> final(self).jobs@ == old(self).jobs@,
            previous matches Some(p) ==> exists|i: int| {
                &&& 0 <= i < old(self).jobs@.len()
                &&& #[trigger] old(self).jobs@[i].block_number == block
                &&& p == old(self).jobs@[i].status
                &&& final(self).jobs@ == old(self).jobs@.update(i, JobRecord {
                    status: JobStatus::Successful,
                    time_taken: elapsed,
                    ..old(self).jobs@[i]
                })
            },
    {
        match self.find(block) {
            None => None,
            Some(k) => {
                let p = self.jobs[k].status;
                record_success(&mut self.jobs[k], elapsed);
                assert(self.wf()) by {
                    assert forall|x: int, y: int|
                        0 <= x < self.jobs@.len() && 0 <= y < self.jobs@.len() && x != y
                        implies #[trigger] self.jobs@[x].block_number != #[trigger] self.jobs@[y].block_number by {
                        assert(self.jobs@[x].block_number == old(self).jobs@[x].block_number);
                        assert(self.jobs@[y].block_number == old(self).jobs@[y].block_number);
                    }
                }
                Some(p)
            },
        }
    }
}

/// The record after `k` failures, each with the same message.
pub open spec fn failed_times(j: JobRecord, error: String, k: nat) -> JobRecord
    decreases k,
{
    if k == 0 {
        j
    } else {
        failed(failed_times(j, error, (k - 1) as nat), error)
    }
}

/// A fresh job that fails every time is given up at exactly its
/// `max_attempts`-th recorded failure: no earlier failure gives it up, that
/// one does, and afterwards it is never handed out again.
pub proof fn lemma_retry_bound(j: JobRecord, error: String, max_attempts: u32, k: nat, now: u64, last_block: u32)
    requires
        j.attempts == 0,
        1 <= k <= max_attempts,
    ensures
        failed_times(j, error, k).attempts == k,
        gives_up(failed_times(j, error, k).attempts, max_attempts) <==> k == max_attempts,
        k == max_attempts ==> !eligible(failed_times(j, error, k), now, max_attempts, last_block),
    decreases k,
{
    if k > 1 {
        lemma_retry_bound(j, error, max_attempts, (k - 1) as nat, now, last_block);
    } else {
        assert(failed_times(j, error, 0) == j);
    }
}

/// A job still nominally in progress whose lease deadline has passed is
/// eligible again, provided its attempts are not exhausted and it is within
/// the block bound; so `acquire` on a queue holding it does not come back
/// empty.
pub proof fn lemma_expired_lease_reacquired(jobs: Seq<JobRecord>, i: int, params: AcquireParams)
    requires
        0 <= i < jobs.len(),
        jobs[i].status == JobStatus::InProgress,
        jobs[i].lease_deadline < params.now,
        jobs[i].attempts < params.max_attempts,
        jobs[i].block_number <= params.last_block,
    ensures
        eligible(jobs[i], params.now, params.max_attempts, params.last_block),
        !(forall|k: int| 0 <= k < jobs.len()
            ==> !eligible(#[trigger] jobs[k], params.now, params.max_attempts, params.last_block)),
{
    assert(eligible(jobs[i], params.now, params.max_attempts, params.last_block));
}

/// A job whose lease is still running, or whose attempts are used up, is not
/// handed out.
pub proof fn lemma_held_or_exhausted_not_eligible(j: JobRecord, params: AcquireParams)
    requires
        (j.status == JobStatus::InProgress && j.lease_deadline >= params.now)
            || j.attempts >= params.max_attempts,
    ensures
        !eligible(j, params.now, params.max_attempts, params.last_block),
{
}

} // verus!
