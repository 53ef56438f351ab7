//! Artifact naming and an in-memory artifact store.

use vstd::prelude::*;
use crate::keys::{decimal, numbered_key, push_decimal};
use vstd::string::StringExecFns;

verus! {

/// Namespace of a stored artifact.
#[derive(Clone, Copy, Debug, PartialEq, Eq, Structural)]
pub enum Bucket {
    WitnessInput,
    LeafAggregationWitnessJobs,
    SchedulerWitnessJobs,
    ProverJobs,
}

/// The top-level artifacts of one block.
#[derive(Clone, Copy, Debug, PartialEq, Eq, Structural)]
pub enum ArtifactKind {
    /// The partial job input produced upstream.
    PartialJobInput,
    /// The captured arguments of an engine run.
    RunArguments,
    /// The circuit-set object.
    BasicCircuits,
    /// The public inputs derived from the circuit set.
    BasicCircuitsInputs,
    /// The scheduler witness.
    SchedulerWitness,
}

/// Bucket of each top-level artifact kind.
pub open spec fn bucket_of(kind: ArtifactKind) -> Bucket {
    match kind {
        ArtifactKind::PartialJobInput => Bucket::WitnessInput,
        ArtifactKind::RunArguments => Bucket::WitnessInput,
        ArtifactKind::BasicCircuits => Bucket::LeafAggregationWitnessJobs,
        ArtifactKind::BasicCircuitsInputs => Bucket::LeafAggregationWitnessJobs,
        ArtifactKind::SchedulerWitness => Bucket::SchedulerWitnessJobs,
    }
}

/// Name prefix of each top-level artifact kind.
pub open spec fn prefix_of(kind: ArtifactKind) -> Seq<char> {
    match kind {
        ArtifactKind::PartialJobInput => "merkel_tree_paths_"@,
        ArtifactKind::RunArguments => "run_with_fixed_params_input_"@,
        ArtifactKind::BasicCircuits => "basic_circuits_"@,
        ArtifactKind::BasicCircuitsInputs => "basic_circuits_inputs_"@,
        ArtifactKind::SchedulerWitness => "scheduler_witness_"@,
    }
}

/// Key of a top-level artifact of a block.
pub open spec fn artifact_key(block: u32, kind: ArtifactKind) -> Seq<char> {
    prefix_of(kind) + decimal(block as nat) + ".bin"@
}

/// Key of the circuit at position `sequence` of a block's flattened circuit
/// list, tagged with its circuit type.
pub open spec fn circuit_key(block: u32, sequence: usize, circuit_type: Seq<char>) -> Seq<char> {
    decimal(block as nat) + "_"@ + decimal(sequence as nat) + "_"@ + circuit_type
        + "_basic_circuits.bin"@
}

/// Bucket of a top-level artifact kind.
pub fn bucket_for(kind: ArtifactKind) -> (r: Bucket)
    ensures
        r == bucket_of(kind),
{
    match kind {
        ArtifactKind::PartialJobInput => Bucket::WitnessInput,
        ArtifactKind::RunArguments => Bucket::WitnessInput,
        ArtifactKind::BasicCircuits => Bucket::LeafAggregationWitnessJobs,
        ArtifactKind::BasicCircuitsInputs => Bucket::LeafAggregationWitnessJobs,
        ArtifactKind::SchedulerWitness => Bucket::SchedulerWitnessJobs,
    }
}

/// Key of a top-level artifact of a block.
pub fn encode_key(block: u32, kind: ArtifactKind) -> (r: String)
    ensures
        r@ == artifact_key(block, kind),
{
    let prefix = match kind {
        ArtifactKind::PartialJobInput => "merkel_tree_paths_",
        ArtifactKind::RunArguments => "run_with_fixed_params_input_",
        ArtifactKind::BasicCircuits => "basic_circuits_",
        ArtifactKind::BasicCircuitsInputs => "basic_circuits_inputs_",
        ArtifactKind::SchedulerWitness => "scheduler_witness_",
    };
    numbered_key(prefix, block as u64, ".bin")
}

/// Key of one flattened circuit.
pub fn encode_circuit_key(block: u32, sequence: usize, circuit_type: &str) -> (r: String)
    ensures
        r@ == circuit_key(block, sequence, circuit_type@),
{
    let mut s = String::new();
    push_decimal(&mut s, block as u64);
    s.append("_");
    push_decimal(&mut s, sequence as u64);
    s.append("_");
    s.append(circuit_type);
    s.append("_basic_circuits.bin");
    s
}

/// Payloads kept under (bucket, key); one entry per pair.
pub struct ArtifactStore {
    pub entries: Vec<(Bucket, String, Vec<u8>)>,
}

impl ArtifactStore {
    /// Each (bucket, key) pair occurs once.
    pub open spec fn wf(&self) -> bool {
        forall|i: int, k: int|
            0 <= i < self.entries@.len() && 0 <= k < self.entries@.len() && i != k
                ==> (#[trigger] self.entries@[i]).0 != (#[trigger] self.entries@[k]).0
                || self.entries@[i].1@ != self.entries@[k].1@
    }

    /// What the store holds.
    pub open spec fn view(&self) -> Map<(Bucket, Seq<char>), Seq<u8>> {
        Map::new(
            |p: (Bucket, Seq<char>)| exists|i: int| 0 <= i < self.entries@.len()
                && (#[trigger] self.entries@[i]).0 == p.0 && self.entries@[i].1@ == p.1,
            |p: (Bucket, Seq<char>)| {
                let i = choose|i: int| 0 <= i < self.entries@.len()
                    && (#[trigger] self.entries@[i]).0 == p.0 && self.entries@[i].1@ == p.1;
                self.entries@[i].2@
            },
        )
    }

    /// An empty store.
    pub fn new() -> (r: ArtifactStore)
        ensures
            r.wf(),
            r@ == Map::<(Bucket, Seq<char>), Seq<u8>>::empty(),
    {
        let r = ArtifactStore { entries: Vec::new() };
        assert(r@ =~= Map::<(Bucket, Seq<char>), Seq<u8>>::empty());
        r
    }

    fn position(&self, bucket: Bucket, key: &String) -> (r: Option<usize>)
        ensures
            r matches Some(i) ==> i < self.entries@.len() && self.entries@[i as int].0 == bucket
                && self.entries@[i as int].1@ == key@,
            r is None ==> forall|i: int| 0 <= i < self.entries@.len()
                ==> (#[trigger] self.entries@[i]).0 != bucket || self.entries@[i].1@ != key@,
    {
        let mut i: usize = 0;
        while i < self.entries.len()
            invariant
                i <= self.entries@.len(),
                forall|k: int| 0 <= k < i
                    ==> (#[trigger] self.entries@[k]).0 != bucket || self.entries@[k].1@ != key@,
            decreases self.entries@.len() - i,
        {
            if self.entries[i].0 == bucket && self.entries[i].1 == *key {
                return Some(i);
            }
            i = i + 1;
        }
        None
    }

    /// Stores `payload` under (bucket, key), replacing what was there, and
    /// returns the location: the key.
    pub fn put(&mut self, bucket: Bucket, key: String, payload: Vec<u8>) -> (location: String)
        requires
            old(self).wf(),
        ensures
            final(self).wf(),
            final(self)@ == old(self)@.insert((bucket, key@), payload@),
            location@ == key@,
    {
        let location = key.clone();
        match self.position(bucket, &key) {
            Some(i) => {
                let ghost k = key@;
                self.entries.set(i, (bucket, key, payload));
                assert(self.wf()) by {
                    assert forall|x: int, y: int|
                        0 <= x < self.entries@.len() && 0 <= y < self.entries@.len() && x != y
                        implies (#[trigger] self.entries@[x]).0 != (#[trigger] self.entries@[y]).0
                        || self.entries@[x].1@ != self.entries@[y].1@ by {
                        if x != i as int && y != i as int {
                            assert(self.entries@[x] == old(self).entries@[x]);
                            assert(self.entries@[y] == old(self).entries@[y]);
                        } else if x == i as int {
                            assert(self.entries@[y] == old(self).entries@[y]);
                        } else {
                            assert(self.entries@[x] == old(self).entries@[x]);
                        }
                    }
                }
                assert(self@ =~= old(self)@.insert((bucket, k), self.entries@[i as int].2@)) by {
                    assert forall|p: (Bucket, Seq<char>)|
                        old(self)@.insert((bucket, k), self.entries@[i as int].2@).contains_key(p)
                        implies #[trigger] self@.contains_key(p) by {
                        if p != (bucket, k) {
                            assert(old(self)@.contains_key(p));
                            let j = choose|j: int| 0 <= j < old(self).entries@.len()
                                && (#[trigger] old(self).entries@[j]).0 == p.0 && old(self).entries@[j].1@ == p.1;
                            assert(self.entries@[j] == old(self).entries@[j]);
                        } else {
                            assert(self.entries@[i as int].0 == p.0);
                        }
                    }
                    assert forall|p: (Bucket, Seq<char>)| #[trigger] self@.contains_key(p)
                        implies self@[p] == old(self)@.insert((bucket, k), self.entries@[i as int].2@)[p] by {
                        let j = choose|j: int| 0 <= j < self.entries@.len()
                            && (#[trigger] self.entries@[j]).0 == p.0 && self.entries@[j].1@ == p.1;
                        if p != (bucket, k) {
                            assert(j != i as int);
                            assert(self.entries@[j] == old(self).entries@[j]);
                            assert(old(self)@.contains_key(p));
                            let j2 = choose|j2: int| 0 <= j2 < old(self).entries@.len()
                                && (#[trigger] old(self).entries@[j2]).0 == p.0 && old(self).entries@[j2].1@ == p.1;
                            assert(j2 == j);
                        } else {
                            assert(j == i as int);
                        }
                    }
                }
            },
            None => {
                let ghost k = key@;
                self.entries.push((bucket, key, payload));
                let ghost n = old(self).entries@.len() as int;
                assert(self@ =~= old(self)@.insert((bucket, k), self.entries@[n].2@)) by {
                    assert forall|p: (Bucket, Seq<char>)|
                        old(self)@.insert((bucket, k), self.entries@[n].2@).contains_key(p)
                        implies #[trigger] self@.contains_key(p) by {
                        if p != (bucket, k) {
                            assert(old(self)@.contains_key(p));
                            let j = choose|j: int| 0 <= j < old(self).entries@.len()
                                && (#[trigger] old(self).entries@[j]).0 == p.0 && old(self).entries@[j].1@ == p.1;
                            assert(self.entries@[j] == old(self).entries@[j]);
                        } else {
                            assert(self.entries@[n].0 == p.0);
                        }
                    }
                    assert forall|p: (Bucket, Seq<char>)| #[trigger] self@.contains_key(p)
                        implies self@[p] == old(self)@.insert((bucket, k), self.entries@[n].2@)[p] by {
                        let j = choose|j: int| 0 <= j < self.entries@.len()
                            && (#[trigger] self.entries@[j]).0 == p.0 && self.entries@[j].1@ == p.1;
                        if p != (bucket, k) {
                            assert(j != n);
                            assert(self.entries@[j] == old(self).entries@[j]);
                            let j2 = choose|j2: int| 0 <= j2 < old(self).entries@.len()
                                && (#[trigger] old(self).entries@[j2]).0 == p.0 && old(self).entries@[j2].1@ == p.1;
                            assert(j2 == j);
                        } else {
                            assert(j == n);
                        }
                    }
                }
            },
        }
        location
    }

    /// The payload under (bucket, key), if any.
    pub fn get(&self, bucket: Bucket, key: &String) -> (r: Option<Vec<u8>>)
        requires
            self.wf(),
        ensures
            r matches Some(p) ==> self@.contains_key((bucket, key@)) && p@ == self@[(bucket, key@)],
            r is None ==> !self@.contains_key((bucket, key@)),
    {
        match self.position(bucket, key) {
            Some(i) => {
                let ghost p = (bucket, key@);
                assert(self@.contains_key(p));
                let ghost j = choose|j: int| 0 <= j < self.entries@.len()
                    && (#[trigger] self.entries@[j]).0 == p.0 && self.entries@[j].1@ == p.1;
                assert(j == i as int);
                Some(self.entries[i].2.clone())
            },
            None => None,
        }
    }
}

/// Storing twice under one (bucket, key) leaves the second payload: the
/// store afterwards equals one that saw only the second write, and a read
/// returns it.
pub proof fn lemma_put_overwrites(
    m: Map<(Bucket, Seq<char>), Seq<u8>>,
    bucket: Bucket,
    key: Seq<char>,
    first: Seq<u8>,
    second: Seq<u8>,
)
    ensures
        m.insert((bucket, key), first).insert((bucket, key), second) == m.insert((bucket, key), second),
        m.insert((bucket, key), first).insert((bucket, key), second)[(bucket, key)] == second,
{
    assert(m.insert((bucket, key), first).insert((bucket, key), second) =~= m.insert((bucket, key), second));
}

} // verus!
