use basic_witness::bookkeeping::Bookkeeping;
use basic_witness::generator::{BasicWitnessGenerator, WitnessGeneratorConfig};
use basic_witness::job::JobStatus;
use basic_witness::keys::{numbered_key, push_decimal};
use basic_witness::persist::{save_artifacts, BasicCircuitArtifacts};
use basic_witness::sampling::SamplingDecision;
use basic_witness::store::{encode_circuit_key, encode_key, ArtifactKind, ArtifactStore, Bucket};
use basic_witness::witness::RunWithFixedParamsInput;

#[test]
fn keys_are_deterministic() {
    assert_eq!(encode_key(100, ArtifactKind::BasicCircuits), "basic_circuits_100.bin");
    assert_eq!(encode_key(100, ArtifactKind::BasicCircuitsInputs), "basic_circuits_inputs_100.bin");
    assert_eq!(encode_key(0, ArtifactKind::SchedulerWitness), "scheduler_witness_0.bin");
    assert_eq!(encode_key(42, ArtifactKind::PartialJobInput), "merkel_tree_paths_42.bin");
    assert_eq!(RunWithFixedParamsInput::<()>::encode_key(7), "run_with_fixed_params_input_7.bin");
    assert_eq!(encode_circuit_key(100, 3, "Main VM"), "100_3_Main VM_basic_circuits.bin");
}

#[test]
fn decimal_rendering() {
    let mut s = String::from("x");
    push_decimal(&mut s, 0);
    assert_eq!(s, "x0");
    push_decimal(&mut s, u64::MAX);
    assert_eq!(s, "x018446744073709551615");
    assert_eq!(numbered_key("a_", 1090, ".b"), "a_1090.b");
}

#[test]
fn put_overwrites_same_key() {
    let mut store = ArtifactStore::new();
    let key = encode_key(9, ArtifactKind::BasicCircuits);
    let loc = store.put(Bucket::LeafAggregationWitnessJobs, key.clone(), vec![1, 2]);
    assert_eq!(loc, key);
    store.put(Bucket::LeafAggregationWitnessJobs, key.clone(), vec![3]);
    assert_eq!(store.get(Bucket::LeafAggregationWitnessJobs, &key), Some(vec![3]));
    assert_eq!(store.entries.len(), 1);
    assert_eq!(store.get(Bucket::ProverJobs, &key), None);
}

fn artifacts(n: usize) -> BasicCircuitArtifacts {
    BasicCircuitArtifacts {
        basic_circuits: vec![1],
        basic_circuits_inputs: vec![2],
        scheduler_witness: vec![3],
        circuits: (0..n).map(|k| (format!("type{}", k % 2), vec![10 + k as u8])).collect(),
    }
}

fn config(percentage: Option<u32>) -> WitnessGeneratorConfig {
    WitnessGeneratorConfig {
        generation_timeout: 60,
        max_attempts: 2,
        blocks_proving_percentage: percentage,
        dump_arguments_for_blocks: vec![],
        last_l1_batch_to_process: u32::MAX,
    }
}

#[test]
fn successful_job_fans_out_one_prover_job_per_circuit() {
    let mut g = BasicWitnessGenerator::new(config(None));
    g.bookkeeping.queue.enqueue(100);
    assert_eq!(g.get_next_job(0), Some(100));
    assert_eq!(g.process_job(100), SamplingDecision::Prove);
    let mut store = ArtifactStore::new();
    let urls = save_artifacts(100, &artifacts(4), &mut store);
    assert_eq!(store.entries.len(), 7);
    assert_eq!(urls.basic_circuits_url, "basic_circuits_100.bin");
    assert_eq!(urls.basic_circuits_inputs_url, "basic_circuits_inputs_100.bin");
    assert_eq!(urls.scheduler_witness_url, "scheduler_witness_100.bin");
    assert_eq!(urls.circuit_types_and_urls[1], ("type1".to_string(), "100_1_type1_basic_circuits.bin".to_string()));
    assert_eq!(store.get(Bucket::ProverJobs, &urls.circuit_types_and_urls[3].1), Some(vec![13]));
    assert!(g.save_result(100, Some(urls), 1234));
    let b = &g.bookkeeping;
    assert_eq!(b.aggregation_jobs.len(), 1);
    assert_eq!(b.aggregation_jobs[0].number_of_circuits, 4);
    assert_eq!(b.aggregation_jobs[0].basic_circuits_url, "basic_circuits_100.bin");
    assert_eq!(b.prover_jobs.len(), 4);
    for (k, j) in b.prover_jobs.iter().enumerate() {
        assert_eq!(j.block_number, 100);
        assert_eq!(j.sequence_number, k);
    }
    assert_eq!(b.queue.jobs[0].status, JobStatus::Successful);
    assert_eq!(b.queue.jobs[0].time_taken, 1234);
    // A stale second completion adds nothing.
    let again = save_artifacts(100, &artifacts(4), &mut store);
    assert_eq!(store.entries.len(), 7);
    assert!(!g.save_result(100, Some(again), 99));
    assert_eq!(g.bookkeeping.queue.jobs[0].time_taken, 1234);
    assert_eq!(g.bookkeeping.prover_jobs.len(), 4);
    assert_eq!(g.bookkeeping.aggregation_jobs.len(), 1);
}

#[test]
fn missing_root_records_one_failure() {
    let mut g = BasicWitnessGenerator::new(config(None));
    g.bookkeeping.queue.enqueue(101);
    assert_eq!(g.get_next_job(0), Some(101));
    let r = basic_witness::input::build_basic_circuits_witness_generator_input((), 101, None, None, None);
    let e = r.err().unwrap();
    assert_eq!(e, basic_witness::input::BuildError::MissingPredecessorState);
    let out = g.save_failure(101, format!("{:?}", e));
    assert_eq!(out, basic_witness::queue::FailureOutcome::WillRetry { attempts: 1 });
    assert_eq!(g.bookkeeping.queue.jobs[0].status, JobStatus::Failed);
    assert_eq!(g.bookkeeping.queue.jobs[0].attempts, 1);
}

#[test]
fn zero_percentage_skips_without_artifacts() {
    let mut g = BasicWitnessGenerator::new(config(Some(0)));
    for b in 1..=5 {
        g.bookkeeping.queue.enqueue(b);
    }
    while let Some(b) = g.get_next_job(0) {
        assert_eq!(g.process_job(b), SamplingDecision::Skip);
        assert!(!g.save_result(b, None, 0));
    }
    let bk: &Bookkeeping = &g.bookkeeping;
    assert!(bk.aggregation_jobs.is_empty());
    assert!(bk.prover_jobs.is_empty());
    assert_eq!(bk.proof_skipped_blocks, vec![1, 2, 3, 4, 5]);
    assert!(bk.queue.jobs.iter().all(|j| j.status == JobStatus::Skipped));
}
