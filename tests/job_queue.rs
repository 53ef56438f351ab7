use basic_witness::bookkeeping::Bookkeeping;
use basic_witness::job::{AcquireParams, JobStatus};
use basic_witness::queue::{FailureOutcome, JobQueue};

fn params(now: u64) -> AcquireParams {
    AcquireParams { now, timeout: 100, max_attempts: 3, last_block: 1000 }
}

#[test]
fn acquires_oldest_queued_job() {
    let mut q = JobQueue::new();
    assert!(q.enqueue(12));
    assert!(q.enqueue(10));
    assert!(q.enqueue(11));
    assert!(!q.enqueue(10));
    assert_eq!(q.acquire(params(5)), Some(10));
    assert_eq!(q.acquire(params(5)), Some(11));
    assert_eq!(q.acquire(params(5)), Some(12));
    assert_eq!(q.acquire(params(5)), None);
    let j = &q.jobs[1];
    assert_eq!(j.block_number, 10);
    assert_eq!(j.status, JobStatus::InProgress);
    assert_eq!(j.lease_deadline, 105);
}

#[test]
fn respects_last_block_bound() {
    let mut q = JobQueue::new();
    q.enqueue(2000);
    assert_eq!(q.acquire(params(0)), None);
    assert_eq!(q.jobs[0].status, JobStatus::Queued);
}

#[test]
fn expired_lease_is_reacquired() {
    let mut q = JobQueue::new();
    q.enqueue(7);
    assert_eq!(q.acquire(params(10)), Some(7));
    // Lease ends at 110: still held at 110, free at 111.
    assert_eq!(q.acquire(params(110)), None);
    assert_eq!(q.acquire(params(111)), Some(7));
    assert_eq!(q.jobs[0].status, JobStatus::InProgress);
    assert_eq!(q.jobs[0].lease_deadline, 211);
}

#[test]
fn lease_saturates_at_largest_time() {
    let mut q = JobQueue::new();
    q.enqueue(1);
    let p = AcquireParams { now: u64::MAX - 1, timeout: 100, max_attempts: 3, last_block: 10 };
    assert_eq!(q.acquire(p), Some(1));
    assert_eq!(q.jobs[0].lease_deadline, u64::MAX);
}

#[test]
fn failing_job_is_given_up_after_max_attempts() {
    let mut b = Bookkeeping::new();
    b.queue.enqueue(5);
    let mut outcomes = Vec::new();
    for round in 0..10 {
        match b.get_next_job(params(round * 1000)) {
            Some(block) => {
                assert_eq!(block, 5);
                outcomes.push(b.save_failure(block, "boom".to_string(), 3));
            }
            None => break,
        }
    }
    assert_eq!(
        outcomes,
        vec![
            FailureOutcome::WillRetry { attempts: 1 },
            FailureOutcome::WillRetry { attempts: 2 },
            FailureOutcome::GiveUp { attempts: 3 },
        ]
    );
    assert_eq!(b.proof_skipped_blocks, vec![5]);
    assert_eq!(b.queue.jobs[0].status, JobStatus::Failed);
    assert_eq!(b.queue.jobs[0].attempts, 3);
    assert_eq!(b.queue.jobs[0].error, Some("boom".to_string()));
}

#[test]
fn failure_of_unknown_job_changes_nothing() {
    let mut b = Bookkeeping::new();
    assert_eq!(b.save_failure(9, "x".to_string(), 3), FailureOutcome::UnknownJob);
    assert!(b.proof_skipped_blocks.is_empty());
}

#[test]
fn exhausted_or_leased_jobs_are_not_acquired() {
    let mut q = JobQueue::new();
    q.enqueue(1);
    q.enqueue(2);
    q.jobs[0].attempts = 3;
    assert_eq!(q.acquire(params(0)), Some(2));
    // Job 2 holds a live lease; job 1 is exhausted although queued.
    assert_eq!(q.acquire(params(50)), None);
    assert_eq!(q.jobs[0].status, JobStatus::Queued);
}

#[test]
fn sampling_skip_marks_job_skipped() {
    let mut b = Bookkeeping::new();
    b.queue.enqueue(4);
    assert!(b.record_sampling_skip(4));
    assert_eq!(b.queue.jobs[0].status, JobStatus::Skipped);
    assert_eq!(b.proof_skipped_blocks, vec![4]);
    assert!(!b.record_sampling_skip(8));
    assert_eq!(b.proof_skipped_blocks, vec![4]);
}
