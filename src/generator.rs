//! The basic-circuit witness generator: configuration passed once at
//! construction, and the processor's steps over its bookkeeping.

use vstd::prelude::*;
use crate::bookkeeping::{Bookkeeping, completable, prover_jobs_of, skip_recorded};
use crate::job::{AcquireParams, JobRecord, JobStatus, acquired, eligible, failed, gives_up};
use crate::persist::BlobUrls;
use crate::queue::FailureOutcome;
use crate::sampling::SamplingDecision;

verus! {

/// Settings of the generator.
pub struct WitnessGeneratorConfig {
    /// Length of a job's lease.
    pub generation_timeout: u64,
    /// Failures after which a block is given up.
    pub max_attempts: u32,
    /// Share of jobs, in percent, that are proven for real; all when absent.
    pub blocks_proving_percentage: Option<u32>,
    /// Blocks whose engine arguments are captured for diagnosis.
    pub dump_arguments_for_blocks: Vec<u32>,
    /// Highest block that is handed out.
    pub last_l1_batch_to_process: u32,
}

/// A job handed to the processor: a block and its stored partial input.
pub struct BasicWitnessGeneratorJob<P> {
    pub block_number: u32,
    pub job: P,
}

/// The generator: its configuration and its bookkeeping.
pub struct BasicWitnessGenerator {
    pub config: WitnessGeneratorConfig,
    pub bookkeeping: Bookkeeping,
}

impl BasicWitnessGenerator {
    pub open spec fn wf(&self) -> bool {
        self.bookkeeping.wf()
    }

    /// A generator with empty bookkeeping.
    pub fn new(config: WitnessGeneratorConfig) -> (r: BasicWitnessGenerator)
        ensures
            r.wf(),
            r.config == config,
            r.bookkeeping.queue.jobs@.len() == 0,
            r.bookkeeping.aggregation_jobs@.len() == 0,
            r.bookkeeping.prover_jobs@.len() == 0,
            r.bookkeeping.proof_skipped_blocks@.len() == 0,
    {
        BasicWitnessGenerator { config, bookkeeping: Bookkeeping::new() }
    }

    /// The acquisition limits at time `now`.
    pub fn acquire_params(&self, now: u64) -> (r: AcquireParams)
        ensures
            r.now == now,
            r.timeout == self.config.generation_timeout,
            r.max_attempts == self.config.max_attempts,
            r.last_block == self.config.last_l1_batch_to_process,
    {
        AcquireParams {
            now,
            timeout: self.config.generation_timeout,
            max_attempts: self.config.max_attempts,
            last_block: self.config.last_l1_batch_to_process,
        }
    }

    /// Hands out the oldest eligible job at time `now` under the configured
    /// limits (see `Bookkeeping::get_next_job`).
    pub fn get_next_job(&mut self, now: u64) -> (r: Option<u32>)
        requires
            old(self).wf(),
        ensures
            final(self).wf(),
            final(self).config == old(self).config,
            final(self).bookkeeping.aggregation_jobs == old(self).bookkeeping.aggregation_jobs,
            final(self).bookkeeping.prover_jobs == old(self).bookkeeping.prover_jobs,
            final(self).bookkeeping.proof_skipped_blocks == old(self).bookkeeping.proof_skipped_blocks,
            r is None <==> forall|i: int| 0 <= i < old(self).bookkeeping.queue.jobs@.len()
                ==> !eligible(#[trigger] old(self).bookkeeping.queue.jobs@[i], now,
                    old(self).config.max_attempts, old(self).config.last_l1_batch_to_process),
            r is None ==> final(self).bookkeeping.queue.jobs@ == old(self).bookkeeping.queue.jobs@,
            r matches Some(b) ==> exists|i: int| {
                &&& 0 <= i < old(self).bookkeeping.queue.jobs@.len()
                &&& #[trigger] old(self).bookkeeping.queue.jobs@[i].block_number == b
                &&& eligible(old(self).bookkeeping.queue.jobs@[i], now, old(self).config.max_attempts,
                    old(self).config.last_l1_batch_to_process)
                &&& final(self).bookkeeping.queue.jobs@ == old(self).bookkeeping.queue.jobs@.update(
                    i, acquired(old(self).bookkeeping.queue.jobs@[i], now, old(self).config.generation_timeout))
            },
            r matches Some(b) ==> forall|i: int| 0 <= i < old(self).bookkeeping.queue.jobs@.len()
                && eligible(#[trigger] old(self).bookkeeping.queue.jobs@[i], now, old(self).config.max_attempts,
                    old(self).config.last_l1_batch_to_process)
                ==> b <= old(self).bookkeeping.queue.jobs@[i].block_number,
    {
        let params = self.acquire_params(now);
        self.bookkeeping.get_next_job(params)
    }

    /// Runs the sampler for a job under the configured percentage and, when
    /// it skips, records the skip (see `Bookkeeping::begin_job`).
    pub fn process_job(&mut self, block: u32) -> (r: SamplingDecision)
        requires
            old(self).wf(),
        ensures
            final(self).wf(),
            final(self).config == old(self).config,
            final(self).bookkeeping.aggregation_jobs == old(self).bookkeeping.aggregation_jobs,
            final(self).bookkeeping.prover_jobs == old(self).bookkeeping.prover_jobs,
            old(self).config.blocks_proving_percentage is None ==> r == SamplingDecision::Prove,
            old(self).config.blocks_proving_percentage matches Some(p) && p >= 99 ==> r == SamplingDecision::Prove,
            old(self).config.blocks_proving_percentage matches Some(p) && p == 0 ==> r == SamplingDecision::Skip,
            r == SamplingDecision::Prove ==> final(self).bookkeeping.queue.jobs@ == old(self).bookkeeping.queue.jobs@
                && final(self).bookkeeping.proof_skipped_blocks@ == old(self).bookkeeping.proof_skipped_blocks@,
            r == SamplingDecision::Skip ==> skip_recorded(old(self).bookkeeping.queue.jobs@,
                final(self).bookkeeping.queue.jobs@, block),
            r == SamplingDecision::Skip && (exists|i: int| 0 <= i < old(self).bookkeeping.queue.jobs@.len()
                && #[trigger] old(self).bookkeeping.queue.jobs@[i].block_number == block)
                ==> final(self).bookkeeping.proof_skipped_blocks@ == old(self).bookkeeping.proof_skipped_blocks@.push(block),
            r == SamplingDecision::Skip && (forall|i: int| 0 <= i < old(self).bookkeeping.queue.jobs@.len()
                ==> #[trigger] old(self).bookkeeping.queue.jobs@[i].block_number != block)
                ==> final(self).bookkeeping.proof_skipped_blocks@ == old(self).bookkeeping.proof_skipped_blocks@,
    {
        let percentage = self.config.blocks_proving_percentage;
        self.bookkeeping.begin_job(block, percentage)
    }

    /// Records a failed attempt under the configured attempt cap (see
    /// `Bookkeeping::save_failure`).
    pub fn save_failure(&mut self, block: u32, error: String) -> (r: FailureOutcome)
        requires
            old(self).wf(),
        ensures
            final(self).wf(),
            final(self).config == old(self).config,
            final(self).bookkeeping.aggregation_jobs == old(self).bookkeeping.aggregation_jobs,
            final(self).bookkeeping.prover_jobs == old(self).bookkeeping.prover_jobs,
            r is UnknownJob <==> forall|i: int| 0 <= i < old(self).bookkeeping.queue.jobs@.len()
                ==> #[trigger] old(self).bookkeeping.queue.jobs@[i].block_number != block,
            r is UnknownJob ==> final(self).bookkeeping.queue.jobs@ == old(self).bookkeeping.queue.jobs@,
            !(r is UnknownJob) ==> exists|i: int| {
                &&& 0 <= i < old(self).bookkeeping.queue.jobs@.len()
                &&& #[trigger] old(self).bookkeeping.queue.jobs@[i].block_number == block
                &&& final(self).bookkeeping.queue.jobs@ == old(self).bookkeeping.queue.jobs@.update(
                    i, failed(old(self).bookkeeping.queue.jobs@[i], error))
                &&& r == if gives_up(failed(old(self).bookkeeping.queue.jobs@[i], error).attempts,
                    old(self).config.max_attempts) {
                    FailureOutcome::GiveUp { attempts: failed(old(self).bookkeeping.queue.jobs@[i], error).attempts }
                } else {
                    FailureOutcome::WillRetry { attempts: failed(old(self).bookkeeping.queue.jobs@[i], error).attempts }
                }
            },
            r is GiveUp ==> final(self).bookkeeping.proof_skipped_blocks@
                == old(self).bookkeeping.proof_skipped_blocks@.push(block),
            !(r is GiveUp) ==> final(self).bookkeeping.proof_skipped_blocks@
                == old(self).bookkeeping.proof_skipped_blocks@,
    {
        let max_attempts = self.config.max_attempts;
        self.bookkeeping.save_failure(block, error, max_attempts)
    }

    /// Records a finished job: a sampling skip leaves nothing to write;
    /// stored artifacts are committed with the time the run took (see
    /// `Bookkeeping::save_result`).
    pub fn save_result(&mut self, block: u32, urls: Option<BlobUrls>, elapsed: u64) -> (r: bool)
        requires
            old(self).wf(),
        ensures
            final(self).wf(),
            final(self).config == old(self).config,
            final(self).bookkeeping.proof_skipped_blocks == old(self).bookkeeping.proof_skipped_blocks,
            urls is None ==> !r && final(self).bookkeeping.queue == old(self).bookkeeping.queue
                && final(self).bookkeeping.aggregation_jobs == old(self).bookkeeping.aggregation_jobs
                && final(self).bookkeeping.prover_jobs == old(self).bookkeeping.prover_jobs,
            urls is Some ==> r == completable(old(self).bookkeeping.queue.jobs@, block),
            urls is Some && !r ==> final(self).bookkeeping.queue.jobs@ == old(self).bookkeeping.queue.jobs@
                && final(self).bookkeeping.aggregation_jobs@ == old(self).bookkeeping.aggregation_jobs@
                && final(self).bookkeeping.prover_jobs@ == old(self).bookkeeping.prover_jobs@,
            r ==> exists|i: int| {
                &&& 0 <= i < old(self).bookkeeping.queue.jobs@.len()
                &&& #[trigger] old(self).bookkeeping.queue.jobs@[i].block_number == block
                &&& final(self).bookkeeping.queue.jobs@ == old(self).bookkeeping.queue.jobs@.update(i, JobRecord {
                    status: JobStatus::Successful,
                    time_taken: elapsed,
                    ..old(self).bookkeeping.queue.jobs@[i]
                })
            },
            r ==> final(self).bookkeeping.aggregation_jobs@.len() == old(self).bookkeeping.aggregation_jobs@.len() + 1,
            r ==> final(self).bookkeeping.aggregation_jobs@.drop_last() == old(self).bookkeeping.aggregation_jobs@,
            r ==> {
                let a = final(self).bookkeeping.aggregation_jobs@.last();
                let u = urls->Some_0;
                &&& a.block_number == block
                &&& a.basic_circuits_url@ == u.basic_circuits_url@
                &&& a.basic_circuits_inputs_url@ == u.basic_circuits_inputs_url@
                &&& a.scheduler_witness_url@ == u.scheduler_witness_url@
                &&& a.number_of_circuits == u.circuit_types_and_urls@.len()
            },
            r ==> final(self).bookkeeping.prover_view() == old(self).bookkeeping.prover_view()
                + prover_jobs_of(block, urls->Some_0.circuit_types_and_urls@),
    {
        match urls {
            None => false,
            Some(u) => self.bookkeeping.save_result(block, u, elapsed),
        }
    }
}

} // verus!
