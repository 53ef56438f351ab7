//! The result persister's storage step: every artifact of a finished job is
//! written under its deterministic key, and the locations are collected.

use vstd::prelude::*;
use crate::bytecodes::copy_bytes;
use crate::store::{
    ArtifactKind, ArtifactStore, Bucket, artifact_key, circuit_key, encode_circuit_key, encode_key,
};

verus! {

/// Serialized artifacts of one witness run.
pub struct BasicCircuitArtifacts {
    pub basic_circuits: Vec<u8>,
    pub basic_circuits_inputs: Vec<u8>,
    pub scheduler_witness: Vec<u8>,
    /// The flattened circuits, in the engine's order: (circuit type, circuit).
    pub circuits: Vec<(String, Vec<u8>)>,
}

/// Locations of the stored artifacts.
pub struct BlobUrls {
    pub basic_circuits_url: String,
    pub basic_circuits_inputs_url: String,
    pub scheduler_witness_url: String,
    /// (circuit type, location) of each flattened circuit, in order.
    pub circuit_types_and_urls: Vec<(String, String)>,
}

/// The writes that store a block's artifacts, in order: the three top-level
/// objects, then each flattened circuit.
pub open spec fn artifact_plan(block: u32, a: BasicCircuitArtifacts) -> Seq<(Bucket, Seq<char>, Seq<u8>)> {
    seq![
        (Bucket::LeafAggregationWitnessJobs, artifact_key(block, ArtifactKind::BasicCircuits), a.basic_circuits@),
        (Bucket::LeafAggregationWitnessJobs, artifact_key(block, ArtifactKind::BasicCircuitsInputs), a.basic_circuits_inputs@),
        (Bucket::SchedulerWitnessJobs, artifact_key(block, ArtifactKind::SchedulerWitness), a.scheduler_witness@),
    ] + Seq::new(
        a.circuits@.len(),
        |k: int| (Bucket::ProverJobs, circuit_key(block, k as usize, a.circuits@[k].0@), a.circuits@[k].1@),
    )
}

/// The store after the writes, in order.
pub open spec fn apply_puts(
    m: Map<(Bucket, Seq<char>), Seq<u8>>,
    puts: Seq<(Bucket, Seq<char>, Seq<u8>)>,
) -> Map<(Bucket, Seq<char>), Seq<u8>>
    decreases puts.len(),
{
    if puts.len() == 0 {
        m
    } else {
        apply_puts(m, puts.drop_last()).insert((puts.last().0, puts.last().1), puts.last().2)
    }
}

/// Writes all artifacts of `block` to the store, in the order of
/// `artifact_plan`, and returns their locations.
pub fn save_artifacts(block: u32, artifacts: &BasicCircuitArtifacts, store: &mut ArtifactStore) -> (r: BlobUrls)
    requires
        old(store).wf(),
    ensures
        final(store).wf(),
        final(store)@ == apply_puts(old(store)@, artifact_plan(block, *artifacts)),
        r.basic_circuits_url@ == artifact_key(block, ArtifactKind::BasicCircuits),
        r.basic_circuits_inputs_url@ == artifact_key(block, ArtifactKind::BasicCircuitsInputs),
        r.scheduler_witness_url@ == artifact_key(block, ArtifactKind::SchedulerWitness),
        r.circuit_types_and_urls@.len() == artifacts.circuits@.len(),
        forall|k: int| 0 <= k < r.circuit_types_and_urls@.len() ==> {
            &&& (#[trigger] r.circuit_types_and_urls@[k]).0@ == artifacts.circuits@[k].0@
            &&& r.circuit_types_and_urls@[k].1@ == circuit_key(block, k as usize, artifacts.circuits@[k].0@)
        },
{
    let ghost plan = artifact_plan(block, *artifacts);
    let ghost m0 = store@;
    assert(plan[0] == (Bucket::LeafAggregationWitnessJobs, artifact_key(block, ArtifactKind::BasicCircuits), artifacts.basic_circuits@));
    assert(plan[1] == (Bucket::LeafAggregationWitnessJobs, artifact_key(block, ArtifactKind::BasicCircuitsInputs), artifacts.basic_circuits_inputs@));
    assert(plan[2] == (Bucket::SchedulerWitnessJobs, artifact_key(block, ArtifactKind::SchedulerWitness), artifacts.scheduler_witness@));
    assert(plan.take(1).drop_last() =~= plan.take(0));
    assert(plan.take(2).drop_last() =~= plan.take(1));
    assert(plan.take(3).drop_last() =~= plan.take(2));
    assert(apply_puts(m0, plan.take(0)) == m0);
    let basic_circuits_url = store.put(
        Bucket::LeafAggregationWitnessJobs,
        encode_key(block, ArtifactKind::BasicCircuits),
        copy_bytes(&artifacts.basic_circuits),
    );
    assert(store@ == apply_puts(m0, plan.take(1)));
    let basic_circuits_inputs_url = store.put(
        Bucket::LeafAggregationWitnessJobs,
        encode_key(block, ArtifactKind::BasicCircuitsInputs),
        copy_bytes(&artifacts.basic_circuits_inputs),
    );
    assert(store@ == apply_puts(m0, plan.take(2)));
    let scheduler_witness_url = store.put(
        Bucket::SchedulerWitnessJobs,
        encode_key(block, ArtifactKind::SchedulerWitness),
        copy_bytes(&artifacts.scheduler_witness),
    );
    assert(store@ == apply_puts(m0, plan.take(3)));
    let mut circuit_types_and_urls: Vec<(String, String)> = Vec::new();
    let mut k: usize = 0;
    while k < artifacts.circuits.len()
        invariant
            k <= artifacts.circuits@.len(),
            plan == artifact_plan(block, *artifacts),
            plan.len() == 3 + artifacts.circuits@.len(),
            store.wf(),
            store@ == apply_puts(m0, plan.take(3 + k)),
            circuit_types_and_urls@.len() == k,
            forall|x: int| 0 <= x < k ==> {
                &&& (#[trigger] circuit_types_and_urls@[x]).0@ == artifacts.circuits@[x].0@
                &&& circuit_types_and_urls@[x].1@ == circuit_key(block, x as usize, artifacts.circuits@[x].0@)
            },
        decreases artifacts.circuits@.len() - k,
    {
        let key = encode_circuit_key(block, k, artifacts.circuits[k].0.as_str());
        let url = store.put(Bucket::ProverJobs, key, copy_bytes(&artifacts.circuits[k].1));
        circuit_types_and_urls.push((artifacts.circuits[k].0.clone(), url));
        proof {
            assert(plan.take(3 + k + 1).drop_last() =~= plan.take(3 + k));
            assert(plan[3 + k] == (Bucket::ProverJobs, circuit_key(block, k, artifacts.circuits@[k as int].0@), artifacts.circuits@[k as int].1@));
        }
        k = k + 1;
    }
    assert(plan.take(plan.len() as int) =~= plan);
    BlobUrls { basic_circuits_url, basic_circuits_inputs_url, scheduler_witness_url, circuit_types_and_urls }
}

/// The last payload the writes leave under each (bucket, key).
pub open spec fn written(puts: Seq<(Bucket, Seq<char>, Seq<u8>)>) -> Map<(Bucket, Seq<char>), Seq<u8>> {
    apply_puts(Map::empty(), puts)
}

proof fn lemma_apply_puts_union(
    m: Map<(Bucket, Seq<char>), Seq<u8>>,
    puts: Seq<(Bucket, Seq<char>, Seq<u8>)>,
)
    ensures
        apply_puts(m, puts) == m.union_prefer_right(written(puts)),
    decreases puts.len(),
{
    if puts.len() == 0 {
        assert(m.union_prefer_right(written(puts)) =~= m);
    } else {
        lemma_apply_puts_union(m, puts.drop_last());
        lemma_apply_puts_union(Map::empty(), puts.drop_last());
        assert(Map::<(Bucket, Seq<char>), Seq<u8>>::empty().union_prefer_right(written(puts.drop_last()))
            =~= written(puts.drop_last()));
        assert(apply_puts(m, puts) =~= m.union_prefer_right(written(puts)));
    }
}

/// Storing a block's artifacts again, after a retry, leaves the store as
/// the first run left it: keys are overwritten, never accumulated.
pub proof fn lemma_save_again_changes_nothing(
    m: Map<(Bucket, Seq<char>), Seq<u8>>,
    block: u32,
    a: BasicCircuitArtifacts,
)
    ensures
        apply_puts(apply_puts(m, artifact_plan(block, a)), artifact_plan(block, a))
            == apply_puts(m, artifact_plan(block, a)),
{
    let plan = artifact_plan(block, a);
    lemma_apply_puts_union(m, plan);
    lemma_apply_puts_union(apply_puts(m, plan), plan);
    assert(m.union_prefer_right(written(plan)).union_prefer_right(written(plan))
        =~= m.union_prefer_right(written(plan)));
}

} // verus!
