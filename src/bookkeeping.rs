//! The bookkeeping side of the job processor: handing out jobs, recording
//! sampling skips, failures with bounded retries, and successful completion
//! with fan-out of downstream jobs.

use vstd::prelude::*;
use crate::job::{AcquireParams, JobRecord, JobStatus, failed, gives_up};
use crate::persist::BlobUrls;
use crate::queue::{FailureOutcome, JobQueue};
use crate::sampling::{SamplingDecision, decide};

verus! {

/// A record for the aggregation stage of a block.
pub struct AggregationJob {
    pub block_number: u32,
    pub basic_circuits_url: String,
    pub basic_circuits_inputs_url: String,
    pub number_of_circuits: usize,
    pub scheduler_witness_url: String,
}

/// A proving job for one flattened circuit.
pub struct ProverJob {
    pub block_number: u32,
    pub sequence_number: usize,
    pub circuit_type: String,
    pub circuit_url: String,
}

/// The stores the processor writes: the job queue, the downstream jobs it
/// fans out, and the blocks marked as not requiring a proof (a side signal
/// of the chain-data store, safe to repeat).
pub struct Bookkeeping {
    pub queue: JobQueue,
    pub aggregation_jobs: Vec<AggregationJob>,
    pub prover_jobs: Vec<ProverJob>,
    pub proof_skipped_blocks: Vec<u32>,
}

/// The job of `block` exists and has not completed yet.
pub open spec fn completable(jobs: Seq<JobRecord>, block: u32) -> bool {
    exists|i: int| 0 <= i < jobs.len() && #[trigger] jobs[i].block_number == block
        && jobs[i].status != JobStatus::Successful
}

/// The queue after a sampling skip of `block`: its job, if any, became
/// `Skipped` and nothing else changed.
pub open spec fn skip_recorded(before: Seq<JobRecord>, after: Seq<JobRecord>, block: u32) -> bool {
    &&& (forall|i: int| 0 <= i < before.len() ==> #[trigger] before[i].block_number != block) ==> after == before
    &&& (exists|i: int| 0 <= i < before.len() && #[trigger] before[i].block_number == block) ==> exists|i: int| {
        &&& 0 <= i < before.len()
        &&& #[trigger] before[i].block_number == block
        &&& after == before.update(i, JobRecord { status: JobStatus::Skipped, ..before[i] })
    }
}

/// The prover jobs fanned out for a block's circuits, in order.
pub open spec fn prover_jobs_of(block: u32, urls: Seq<(String, String)>) -> Seq<(u32, usize, Seq<char>, Seq<char>)> {
    Seq::new(urls.len(), |k: int| (block, k as usize, urls[k].0@, urls[k].1@))
}

/// What a prover job records.
pub open spec fn prover_job_view(j: ProverJob) -> (u32, usize, Seq<char>, Seq<char>) {
    (j.block_number, j.sequence_number, j.circuit_type@, j.circuit_url@)
}

impl Bookkeeping {
    pub open spec fn wf(&self) -> bool {
        self.queue.wf()
    }

    /// Prover jobs as plain values.
    pub open spec fn prover_view(&self) -> Seq<(u32, usize, Seq<char>, Seq<char>)> {
        self.prover_jobs@.map_values(|j: ProverJob| prover_job_view(j))
    }

    /// Empty stores.
    pub fn new() -> (r: Bookkeeping)
        ensures
            r.wf(),
            r.queue.jobs@.len() == 0,
            r.aggregation_jobs@.len() == 0,
            r.prover_jobs@.len() == 0,
            r.proof_skipped_blocks@.len() == 0,
    {
        Bookkeeping {
            queue: JobQueue::new(),
            aggregation_jobs: Vec::new(),
            prover_jobs: Vec::new(),
            proof_skipped_blocks: Vec::new(),
        }
    }

    /// Hands out the next job (see `JobQueue::acquire`).
    pub fn get_next_job(&mut self, params: AcquireParams) -> (r: Option<u32>)
        requires
            old(self).wf(),
        ensures
            final(self).wf(),
            final(self).aggregation_jobs == old(self).aggregation_jobs,
            final(self).prover_jobs == old(self).prover_jobs,
            final(self).proof_skipped_blocks == old(self).proof_skipped_blocks,
            r is None <==> forall|i: int| 0 <= i < old(self).queue.jobs@.len()
                ==> !crate::job::eligible(#[trigger] old(self).queue.jobs@[i], params.now, params.max_attempts, params.last_block),
            r is None ==> final(self).queue.jobs@ == old(self).queue.jobs@,
            r matches Some(b) ==> exists|i: int| {
                &&& 0 <= i < old(self).queue.jobs@.len()
                &&& #[trigger] old(self).queue.jobs@[i].block_number == b
                &&& crate::job::eligible(old(self).queue.jobs@[i], params.now, params.max_attempts, params.last_block)
                &&& final(self).queue.jobs@ == old(self).queue.jobs@.update(i, crate::job::acquired(old(self).queue.jobs@[i], params.now, params.timeout))
            },
            r matches Some(b) ==> forall|i: int| 0 <= i < old(self).queue.jobs@.len()
                && crate::job::eligible(#[trigger] old(self).queue.jobs@[i], params.now, params.max_attempts, params.last_block)
                ==> b <= old(self).queue.jobs@[i].block_number,
    {
        self.queue.acquire(params)
    }

    /// Records a skip by sampling: the job becomes `Skipped` and the
    /// block is marked as not requiring a proof. Nothing else is written.
    /// Returns false, changing nothing, when the block has no job.
    pub fn record_sampling_skip(&mut self, block: u32) -> (r: bool)
        requires
            old(self).wf(),
        ensures
            final(self).wf(),
            final(self).aggregation_jobs == old(self).aggregation_jobs,
            final(self).prover_jobs == old(self).prover_jobs,
            r == exists|i: int| 0 <= i < old(self).queue.jobs@.len() && #[trigger] old(self).queue.jobs@[i].block_number == block,
            r ==> final(self).proof_skipped_blocks@ == old(self).proof_skipped_blocks@.push(block),
            r ==> exists|i: int| {
                &&& 0 <= i < old(self).queue.jobs@.len()
                &&& #[trigger] old(self).queue.jobs@[i].block_number == block
                &&& final(self).queue.jobs@ == old(self).queue.jobs@.update(i, JobRecord { status: JobStatus::Skipped, ..old(self).queue.jobs@[i] })
            },
            !r ==> final(self).queue.jobs@ == old(self).queue.jobs@ && final(self).proof_skipped_blocks@ == old(self).proof_skipped_blocks@,
    {
        match self.queue.set_status(block, JobStatus::Skipped) {
            None => false,
            Some(_) => {
                self.proof_skipped_blocks.push(block);
                true
            },
        }
    }

    /// Starts a job: runs sampling and, when it skips, records the
    /// skip. Without a percentage, or with one of 99 or more, the job is
    /// always proven; with 0 it is always skipped.
    pub fn begin_job(&mut self, block: u32, percentage: Option<u32>) -> (r: SamplingDecision)
        requires
            old(self).wf(),
        ensures
            final(self).wf(),
            final(self).aggregation_jobs == old(self).aggregation_jobs,
            final(self).prover_jobs == old(self).prover_jobs,
            percentage is None ==> r == SamplingDecision::Prove,
            percentage matches Some(p) && p >= 99 ==> r == SamplingDecision::Prove,
            percentage matches Some(p) && p == 0 ==> r == SamplingDecision::Skip,
            r == SamplingDecision::Prove ==> final(self).queue.jobs@ == old(self).queue.jobs@
                && final(self).proof_skipped_blocks@ == old(self).proof_skipped_blocks@,
            r == SamplingDecision::Skip && (exists|i: int| 0 <= i < old(self).queue.jobs@.len()
                && #[trigger] old(self).queue.jobs@[i].block_number == block)
                ==> final(self).proof_skipped_blocks@ == old(self).proof_skipped_blocks@.push(block),
            r == SamplingDecision::Skip ==> skip_recorded(old(self).queue.jobs@, final(self).queue.jobs@, block),
            r == SamplingDecision::Skip && (forall|i: int| 0 <= i < old(self).queue.jobs@.len()
                ==> #[trigger] old(self).queue.jobs@[i].block_number != block)
                ==> final(self).proof_skipped_blocks@ == old(self).proof_skipped_blocks@,
    {
        let d = decide(percentage);
        match d {
            SamplingDecision::Skip => {
                self.record_sampling_skip(block);
            },
            SamplingDecision::Prove => {},
        }
        d
    }

    /// Records a failed attempt; once attempts reach `max_attempts` the block
    /// is also marked as not requiring a proof.
    pub fn save_failure(&mut self, block: u32, error: String, max_attempts: u32) -> (r: FailureOutcome)
        requires
            old(self).wf(),
        ensures
            final(self).wf(),
            final(self).aggregation_jobs == old(self).aggregation_jobs,
            final(self).prover_jobs == old(self).prover_jobs,
            r is UnknownJob <==> forall|i: int| 0 <= i < old(self).queue.jobs@.len()
                ==> #[trigger] old(self).queue.jobs@[i].block_number != block,
            r is UnknownJob ==> final(self).queue.jobs@ == old(self).queue.jobs@,
            !(r is UnknownJob) ==> exists|i: int| {
                &&& 0 <= i < old(self).queue.jobs@.len()
                &&& #[trigger] old(self).queue.jobs@[i].block_number == block
                &&& final(self).queue.jobs@ == old(self).queue.jobs@.update(i, failed(old(self).queue.jobs@[i], error))
                &&& r == if gives_up(failed(old(self).queue.jobs@[i], error).attempts, max_attempts) {
                    FailureOutcome::GiveUp { attempts: failed(old(self).queue.jobs@[i], error).attempts }
                } else {
                    FailureOutcome::WillRetry { attempts: failed(old(self).queue.jobs@[i], error).attempts }
                }
            },
            r is GiveUp ==> final(self).proof_skipped_blocks@ == old(self).proof_skipped_blocks@.push(block),
            !(r is GiveUp) ==> final(self).proof_skipped_blocks@ == old(self).proof_skipped_blocks@,
    {
        let r = self.queue.fail(block, error, max_attempts);
        match r {
            FailureOutcome::GiveUp { .. } => {
                self.proof_skipped_blocks.push(block);
            },
            _ => {},
        }
        r
    }

    /// Commits a successful job in one step: records the aggregation job
    /// with the three top-level locations, one prover job per flattened
    /// circuit, and marks the job `Successful`. A job that is unknown or
    /// already successful is left alone, so a stale second completion adds
    /// nothing; the result says whether anything was written. `elapsed` is
    /// recorded as the time the run took.
    pub fn save_result(&mut self, block: u32, urls: BlobUrls, elapsed: u64) -> (r: bool)
        requires
            old(self).wf(),
        ensures
            final(self).wf(),
            final(self).proof_skipped_blocks == old(self).proof_skipped_blocks,
            r == completable(old(self).queue.jobs@, block),
            !r ==> final(self).queue.jobs@ == old(self).queue.jobs@
                && final(self).aggregation_jobs@ == old(self).aggregation_jobs@
                && final(self).prover_jobs@ == old(self).prover_jobs@,
            r ==> exists|i: int| {
                &&& 0 <= i < old(self).queue.jobs@.len()
                &&& #[trigger] old(self).queue.jobs@[i].block_number == block
                &&& final(self).queue.jobs@ == old(self).queue.jobs@.update(i, JobRecord {
                    status: JobStatus::Successful,
                    time_taken: elapsed,
                    ..old(self).queue.jobs@[i]
                })
            },
            r ==> final(self).aggregation_jobs@.len() == old(self).aggregation_jobs@.len() + 1,
            r ==> final(self).aggregation_jobs@.drop_last() == old(self).aggregation_jobs@,
            r ==> {
                let a = final(self).aggregation_jobs@.last();
                &&& a.block_number == block
                &&& a.basic_circuits_url@ == urls.basic_circuits_url@
                &&& a.basic_circuits_inputs_url@ == urls.basic_circuits_inputs_url@
                &&& a.scheduler_witness_url@ == urls.scheduler_witness_url@
                &&& a.number_of_circuits == urls.circuit_types_and_urls@.len()
            },
            r ==> final(self).prover_view() == old(self).prover_view() + prover_jobs_of(block, urls.circuit_types_and_urls@),
    {
        let pos = self.queue.find(block);
        let k = match pos {
            None => {
                return false;
            },
            Some(k) => k,
        };
        if self.queue.jobs[k].status == JobStatus::Successful {
            assert forall|i: int| 0 <= i < self.queue.jobs@.len() && #[trigger] self.queue.jobs@[i].block_number == block
                implies self.queue.jobs@[i].status == JobStatus::Successful by {
                if i != k as int {
                    assert(self.queue.jobs@[k as int].block_number == block);
                }
            }
            return false;
        }
        let n = urls.circuit_types_and_urls.len();
        let ghost old_prover = self.prover_view();
        let mut s: usize = 0;
        while s < n
            invariant
                n == urls.circuit_types_and_urls@.len(),
                s <= n,
                self.prover_view() == old_prover + prover_jobs_of(block, urls.circuit_types_and_urls@).take(s as int),
                self.queue == old(self).queue,
                self.aggregation_jobs == old(self).aggregation_jobs,
                self.proof_skipped_blocks == old(self).proof_skipped_blocks,
            decreases n - s,
        {
            let job = ProverJob {
                block_number: block,
                sequence_number: s,
                circuit_type: urls.circuit_types_and_urls[s].0.clone(),
                circuit_url: urls.circuit_types_and_urls[s].1.clone(),
            };
            let ghost jv = prover_job_view(job);
            let ghost before = self.prover_jobs@;
            assert(jv == prover_jobs_of(block, urls.circuit_types_and_urls@)[s as int]);
            self.prover_jobs.push(job);
            assert(self.prover_view() =~= before.map_values(|j: ProverJob| prover_job_view(j)).push(jv));
            assert(prover_jobs_of(block, urls.circuit_types_and_urls@).take(s as int + 1)
                =~= prover_jobs_of(block, urls.circuit_types_and_urls@).take(s as int).push(jv));
            s = s + 1;
            assert(self.prover_view() =~= old_prover + prover_jobs_of(block, urls.circuit_types_and_urls@).take(s as int));
        }
        assert(prover_jobs_of(block, urls.circuit_types_and_urls@).take(n as int) =~= prover_jobs_of(block, urls.circuit_types_and_urls@));
        let ghost agg_before = self.aggregation_jobs@;
        self.aggregation_jobs.push(AggregationJob {
            block_number: block,
            basic_circuits_url: urls.basic_circuits_url,
            basic_circuits_inputs_url: urls.basic_circuits_inputs_url,
            number_of_circuits: n,
            scheduler_witness_url: urls.scheduler_witness_url,
        });
        assert(self.aggregation_jobs@.drop_last() =~= agg_before);
        self.queue.complete(block, elapsed);
        true
    }
}

} // verus!
