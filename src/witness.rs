//! Assembly of the witness engine's fixed-parameter call from the witness
//! input and what chain storage returned.

use vstd::prelude::*;
use crate::bytecodes::{contains_hash, requested_bytecode_hashes, resolve_bytecodes, resolved_content};
use crate::input::{BuildError, WitnessGeneratorInput};
use crate::store::{ArtifactKind, artifact_key, encode_key};
use crate::types::{Address, BlockHeader, U256, bootloader_address};

verus! {

/// Every argument of one witness-engine run.
#[derive(Clone, Debug)]
pub struct RunWithFixedParamsInput<P> {
    pub l1_batch_number: u32,
    pub last_miniblock_number: u32,
    pub caller: Address,
    pub entry_point_address: Address,
    pub entry_point_code: Vec<u8>,
    pub initial_heap_content: Vec<(usize, U256)>,
    pub zk_porter_is_available: bool,
    pub default_aa_code_hash: U256,
    pub used_bytecodes: Vec<(U256, Vec<u8>)>,
    pub ram_verification_queries: Vec<(u32, U256)>,
    pub cycle_limit: usize,
    /// Root hash of the predecessor block, which seeds the path provider.
    pub previous_block_hash: U256,
    /// The partial job input, which the path provider is built from.
    pub merkle_paths_input: P,
}

impl<P> RunWithFixedParamsInput<P> {
    /// Key under which the arguments of a block's run are captured.
    pub fn encode_key(key: u32) -> (r: String)
        ensures
            r@ == artifact_key(key, ArtifactKind::RunArguments),
    {
        encode_key(key, ArtifactKind::RunArguments)
    }
}

/// Hashes left out of bytecode resolution for a block: its bootloader hash,
/// then any further configured exceptions.
pub fn excluded_hashes(header: &BlockHeader, extra: &Vec<U256>) -> (r: Vec<U256>)
    ensures
        r@ == seq![header.bootloader_hash] + extra@,
{
    let mut r: Vec<U256> = Vec::new();
    r.push(header.bootloader_hash);
    let mut i: usize = 0;
    while i < extra.len()
        invariant
            i <= extra@.len(),
            r@ == seq![header.bootloader_hash] + extra@.take(i as int),
        decreases extra@.len() - i,
    {
        r.push(extra[i]);
        i = i + 1;
        assert(r@ =~= seq![header.bootloader_hash] + extra@.take(i as int));
    }
    assert(extra@.take(extra@.len() as int) =~= extra@);
    r
}

/// Whether the arguments of the block's run are to be captured for diagnosis.
pub fn should_dump_arguments(dump_blocks: &Vec<u32>, block: u32) -> (r: bool)
    ensures
        r == dump_blocks@.contains(block),
{
    let mut i: usize = 0;
    while i < dump_blocks.len()
        invariant
            i <= dump_blocks@.len(),
            forall|k: int| 0 <= k < i ==> dump_blocks@[k] != block,
        decreases dump_blocks@.len() - i,
    {
        if dump_blocks[i] == block {
            assert(dump_blocks@[i as int] == block);
            return true;
        }
        i = i + 1;
    }
    false
}

/// Number of distinct hashes of `used` that are not excluded.
pub open spec fn requested_count(used: Seq<U256>, excluded: Seq<U256>) -> nat {
    used.to_set().filter(|h: U256| !excluded.contains(h)).len()
}

proof fn lemma_requested_count(used: Seq<U256>, excluded: Seq<U256>, requested: Seq<U256>)
    requires
        requested.no_duplicates(),
        forall|h: U256| requested.contains(h) <==> (used.contains(h) && !excluded.contains(h)),
    ensures
        requested.len() == requested_count(used, excluded),
{
    assert(requested.to_set() =~= used.to_set().filter(|h: U256| !excluded.contains(h)));
    requested.unique_seq_to_set();
}

/// Every hash of `used` that is not excluded resolves.
pub open spec fn all_resolved(
    used: Seq<U256>,
    excluded: Seq<U256>,
    fetched: Seq<(U256, Vec<u8>)>,
    account_hash: U256,
    account_code: Seq<u8>,
) -> bool {
    forall|h: U256| used.contains(h) && !excluded.contains(h)
        ==> #[trigger] resolved_content(h, fetched, account_hash, account_code) is Some
}

/// Assembles the engine run of `input`, given the block's header, the
/// bootloader and default account code it references, the bytecodes that
/// storage returned for `requested_bytecode_hashes(used, excluded)`, and the
/// last sub-block of the predecessor block. Checks, in this order: the
/// bootloader code, the default account code, that every requested bytecode
/// resolves, and the predecessor's sub-block range.
pub fn assemble_run_input<P>(
    input: WitnessGeneratorInput<P>,
    header: &BlockHeader,
    bootloader_code: Option<Vec<u8>>,
    account_code: Option<Vec<u8>>,
    excluded: &Vec<U256>,
    fetched: &Vec<(U256, Vec<u8>)>,
    last_miniblock_number: Option<u32>,
    cycle_limit: usize,
) -> (r: Result<RunWithFixedParamsInput<P>, BuildError>)
    requires
        input.block_number >= 1,
    ensures
        r == Err::<RunWithFixedParamsInput<P>, BuildError>(BuildError::MissingBootloaderBytecode)
            <==> bootloader_code is None,
        r == Err::<RunWithFixedParamsInput<P>, BuildError>(BuildError::MissingDefaultAccountBytecode)
            <==> bootloader_code is Some && account_code is None,
        (r matches Err(e) && e is MissingBytecodes) <==> bootloader_code is Some && account_code is Some
            && !all_resolved(input.used_bytecodes_hashes@, excluded@, fetched@, header.default_aa_hash, account_code->Some_0@),
        r == Err::<RunWithFixedParamsInput<P>, BuildError>(
            BuildError::MissingMiniblockRange { block: (input.block_number - 1) as u32 },
        ) <==> bootloader_code is Some && account_code is Some && all_resolved(
            input.used_bytecodes_hashes@, excluded@, fetched@, header.default_aa_hash, account_code->Some_0@,
        ) && last_miniblock_number is None,
        r is Ok <==> bootloader_code is Some && account_code is Some && last_miniblock_number is Some
            && all_resolved(input.used_bytecodes_hashes@, excluded@, fetched@, header.default_aa_hash, account_code->Some_0@),
        r matches Ok(a) ==> {
            &&& a.l1_batch_number == input.block_number
            &&& Some(a.last_miniblock_number) == last_miniblock_number
            &&& a.caller == (Address { hi: 0, lo: 0 })
            &&& a.entry_point_address == (Address { hi: 0, lo: crate::types::BOOTLOADER_ADDRESS_LO })
            &&& a.entry_point_code@ == bootloader_code->Some_0@
            &&& a.initial_heap_content == input.initial_heap_content
            &&& !a.zk_porter_is_available
            &&& a.default_aa_code_hash == header.default_aa_hash
            &&& a.ram_verification_queries@.len() == 0
            &&& a.cycle_limit == cycle_limit
            &&& a.previous_block_hash == input.previous_block_hash
            &&& a.merkle_paths_input == input.merkle_paths_input
            &&& a.used_bytecodes@.len() == requested_count(input.used_bytecodes_hashes@, excluded@)
            &&& (forall|k: int| 0 <= k < a.used_bytecodes@.len() ==> resolved_content(
                (#[trigger] a.used_bytecodes@[k]).0, fetched@, header.default_aa_hash,
                account_code->Some_0@) == Some(a.used_bytecodes@[k].1@))
            &&& (forall|h: U256| (exists|k: int| 0 <= k < a.used_bytecodes@.len()
                && (#[trigger] a.used_bytecodes@[k]).0 == h) <==> (input.used_bytecodes_hashes@.contains(h)
                && !excluded@.contains(h)))
        },
{
    let bootloader = match bootloader_code {
        Some(c) => c,
        None => {
            return Err(BuildError::MissingBootloaderBytecode);
        },
    };
    let account = match account_code {
        Some(c) => c,
        None => {
            return Err(BuildError::MissingDefaultAccountBytecode);
        },
    };
    let requested = requested_bytecode_hashes(&input.used_bytecodes_hashes, excluded);
    proof {
        lemma_requested_count(input.used_bytecodes_hashes@, excluded@, requested@);
    }
    let used_bytecodes = match resolve_bytecodes(&requested, fetched, header.default_aa_hash, &account) {
        Ok(v) => v,
        Err(e) => {
            assert(exists|k: int| 0 <= k < requested@.len() && #[trigger] resolved_content(requested@[k], fetched@, header.default_aa_hash, account@) is None);
            let ghost k = choose|k: int| 0 <= k < requested@.len() && #[trigger] resolved_content(requested@[k], fetched@, header.default_aa_hash, account@) is None;
            assert(requested@.contains(requested@[k]));
            return Err(e);
        },
    };
    assert forall|h: U256| (exists|k: int| 0 <= k < used_bytecodes@.len()
        && (#[trigger] used_bytecodes@[k]).0 == h) <==> requested@.contains(h) by {
        if requested@.contains(h) {
            let k = choose|k: int| 0 <= k < requested@.len() && requested@[k] == h;
            assert(used_bytecodes@[k].0 == h);
        }
    }
    let last_miniblock_number = match last_miniblock_number {
        Some(n) => n,
        None => {
            return Err(BuildError::MissingMiniblockRange { block: input.block_number - 1 });
        },
    };
    Ok(RunWithFixedParamsInput {
        l1_batch_number: input.block_number,
        last_miniblock_number,
        caller: Address::zero(),
        entry_point_address: bootloader_address(),
        entry_point_code: bootloader,
        initial_heap_content: input.initial_heap_content,
        zk_porter_is_available: false,
        default_aa_code_hash: header.default_aa_hash,
        used_bytecodes,
        ram_verification_queries: Vec::new(),
        cycle_limit,
        previous_block_hash: input.previous_block_hash,
        merkle_paths_input: input.merkle_paths_input,
    })
}

} // verus!
