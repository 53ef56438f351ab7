//! Job bookkeeping: the lifecycle of one witness job per block, lease-based
//! acquisition, and bounded retries.

use vstd::prelude::*;

verus! {

/// Status of a job in the bookkeeping store.
#[derive(Clone, Copy, Debug, PartialEq, Eq, Structural)]
pub enum JobStatus {
    Queued,
    InProgress,
    Successful,
    Failed,
    Skipped,
}

/// One job of the bookkeeping store, identified by its block number.
#[derive(Clone, Debug)]
pub struct JobRecord {
    pub block_number: u32,
    pub status: JobStatus,
    /// Number of recorded failures.
    pub attempts: u32,
    /// When the current lease ends; meaningful while the job is in progress.
    pub lease_deadline: u64,
    pub error: Option<String>,
    /// How long the successful run took.
    pub time_taken: u64,
}

/// Limits under which jobs are handed out.
#[derive(Clone, Copy, Debug)]
pub struct AcquireParams {
    /// Current time.
    pub now: u64,
    /// Length of a lease.
    pub timeout: u64,
    /// Failures after which a job is given up.
    pub max_attempts: u32,
    /// Highest block number that may be handed out.
    pub last_block: u32,
}

/// A job may be handed out: it is within the block bound, its attempts are
/// not exhausted, and it is queued, failed, or holds a lease whose deadline
/// has passed.
pub open spec fn eligible(j: JobRecord, now: u64, max_attempts: u32, last_block: u32) -> bool {
    &&& j.block_number <= last_block
    &&& j.attempts < max_attempts
    &&& (j.status == JobStatus::Queued || j.status == JobStatus::Failed || (j.status
        == JobStatus::InProgress && j.lease_deadline < now))
}

/// Executable form of `eligible`.
pub fn is_eligible(j: &JobRecord, now: u64, max_attempts: u32, last_block: u32) -> (r: bool)
    ensures
        r == eligible(*j, now, max_attempts, last_block),
{
    j.block_number <= last_block && j.attempts < max_attempts && (j.status == JobStatus::Queued
        || j.status == JobStatus::Failed || (j.status == JobStatus::InProgress && j.lease_deadline
        < now))
}

/// Lease deadline granted at `now` for `timeout`, saturating at the largest time.
pub open spec fn lease_end(now: u64, timeout: u64) -> u64 {
    if now + timeout <= u64::MAX {
        (now + timeout) as u64
    } else {
        u64::MAX
    }
}

/// The record after it was handed out at `now`.
pub open spec fn acquired(j: JobRecord, now: u64, timeout: u64) -> JobRecord {
    JobRecord { status: JobStatus::InProgress, lease_deadline: lease_end(now, timeout), ..j }
}

/// The record after one failure with the given message: attempts grow by one
/// (saturating at the largest count).
pub open spec fn failed(j: JobRecord, error: String) -> JobRecord {
    JobRecord {
        status: JobStatus::Failed,
        attempts: if j.attempts < u32::MAX {
            (j.attempts + 1) as u32
        } else {
            u32::MAX
        },
        error: Some(error),
        ..j
    }
}

/// After a failure that brought the attempts to `attempts`, the block is
/// given up and marked as not requiring a proof.
pub open spec fn gives_up(attempts: u32, max_attempts: u32) -> bool {
    attempts >= max_attempts
}

/// Executable form of `gives_up`.
pub fn should_skip_proof(attempts: u32, max_attempts: u32) -> (r: bool)
    ensures
        r == gives_up(attempts, max_attempts),
{
    attempts >= max_attempts
}

/// A fresh job for a block whose partial input became available.
pub fn new_job(block_number: u32) -> (r: JobRecord)
    ensures
        r.block_number == block_number,
        r.status == JobStatus::Queued,
        r.attempts == 0,
        r.error is None,
        r.time_taken == 0,
{
    JobRecord { block_number, status: JobStatus::Queued, attempts: 0, lease_deadline: 0, error: None, time_taken: 0 }
}

/// Hands the record out at `now`: marks it in progress with a fresh lease.
pub fn acquire_record(j: &mut JobRecord, now: u64, timeout: u64)
    ensures
        *final(j) == acquired(*old(j), now, timeout),
{
    j.status = JobStatus::InProgress;
    j.lease_deadline = now.saturating_add(timeout);
}

/// Records one failure and returns the resulting number of attempts.
pub fn record_failure(j: &mut JobRecord, error: String) -> (attempts: u32)
    ensures
        *final(j) == failed(*old(j), error),
        attempts == final(j).attempts,
{
    j.status = JobStatus::Failed;
    j.attempts = j.attempts.saturating_add(1);
    j.error = Some(error);
    j.attempts
}

/// Marks the record as successfully completed after `elapsed`.
pub fn record_success(j: &mut JobRecord, elapsed: u64)
    ensures
        *final(j) == (JobRecord { status: JobStatus::Successful, time_taken: elapsed, ..*old(j) }),
{
    j.status = JobStatus::Successful;
    j.time_taken = elapsed;
}

/// Marks the record as skipped by sampling.
pub fn record_skipped(j: &mut JobRecord)
    ensures
        *final(j) == (JobRecord { status: JobStatus::Skipped, ..*old(j) }),
{
    j.status = JobStatus::Skipped;
}

} // verus!
