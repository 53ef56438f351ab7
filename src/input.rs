//! The input builder: merges a stored partial job with chain metadata into
//! the full witness input.

use vstd::prelude::*;
use crate::types::{BlockHeader, U256};

verus! {

/// Why a witness input or the engine arguments could not be assembled.
#[derive(Clone, Copy, Debug, PartialEq, Eq, Structural)]
pub enum BuildError {
    /// The predecessor block has no finalized state root (or there is no
    /// predecessor at all).
    MissingPredecessorState,
    /// The header of the given block is missing.
    MissingBlockHeader { block: u32 },
    /// The bootloader bytecode referenced by the header is missing.
    MissingBootloaderBytecode,
    /// The default account bytecode referenced by the header is missing.
    MissingDefaultAccountBytecode,
    /// This many requested bytecodes could not be resolved.
    MissingBytecodes { missing: usize },
    /// The predecessor block has no sub-block range.
    MissingMiniblockRange { block: u32 },
}

/// The full input of one witness computation.
#[derive(Clone, Debug)]
pub struct WitnessGeneratorInput<P> {
    pub block_number: u32,
    pub previous_block_timestamp: u64,
    pub previous_block_hash: U256,
    pub block_timestamp: u64,
    pub used_bytecodes_hashes: Vec<U256>,
    pub initial_heap_content: Vec<(usize, U256)>,
    /// The partial job input, carried through untouched.
    pub merkle_paths_input: P,
}

/// The builder's result from what chain storage held at call time: the
/// predecessor's state root is checked first, then the two headers.
pub open spec fn build_outcome(
    block: u32,
    header: Option<BlockHeader>,
    previous_header: Option<BlockHeader>,
    previous_root: Option<U256>,
) -> Option<BuildError> {
    if block == 0 || previous_root is None {
        Some(BuildError::MissingPredecessorState)
    } else if header is None {
        Some(BuildError::MissingBlockHeader { block })
    } else if previous_header is None {
        Some(BuildError::MissingBlockHeader { block: (block - 1) as u32 })
    } else {
        None
    }
}

/// Builds the witness input of `block` from its header, the header of
/// `block - 1` and the finalized state root of `block - 1`, as read from
/// chain storage. Fails with `MissingPredecessorState` exactly when that root
/// is absent; block 0 has no predecessor and fails likewise.
pub fn build_basic_circuits_witness_generator_input<P>(
    merkle_paths_input: P,
    block: u32,
    header: Option<BlockHeader>,
    previous_header: Option<BlockHeader>,
    previous_root: Option<U256>,
) -> (r: Result<WitnessGeneratorInput<P>, BuildError>)
    ensures
        r is Ok <==> build_outcome(block, header, previous_header, previous_root) is None,
        r matches Err(e) ==> build_outcome(block, header, previous_header, previous_root) == Some(e),
        r == Err::<WitnessGeneratorInput<P>, BuildError>(BuildError::MissingPredecessorState)
            <==> (block == 0 || previous_root is None),
        r matches Ok(input) ==> {
            &&& input.block_number == block
            &&& input.previous_block_timestamp == previous_header->Some_0.timestamp
            &&& Some(input.previous_block_hash) == previous_root
            &&& input.block_timestamp == header->Some_0.timestamp
            &&& input.used_bytecodes_hashes == header->Some_0.used_contract_hashes
            &&& input.initial_heap_content == header->Some_0.initial_bootloader_contents
            &&& input.merkle_paths_input == merkle_paths_input
        },
{
    if block == 0 {
        return Err(BuildError::MissingPredecessorState);
    }
    let previous_block_hash = match previous_root {
        Some(h) => h,
        None => {
            return Err(BuildError::MissingPredecessorState);
        },
    };
    let header = match header {
        Some(h) => h,
        None => {
            return Err(BuildError::MissingBlockHeader { block });
        },
    };
    let previous_header = match previous_header {
        Some(h) => h,
        None => {
            return Err(BuildError::MissingBlockHeader { block: block - 1 });
        },
    };
    Ok(WitnessGeneratorInput {
        block_number: block,
        previous_block_timestamp: previous_header.timestamp,
        previous_block_hash,
        block_timestamp: header.timestamp,
        used_bytecodes_hashes: header.used_contract_hashes,
        initial_heap_content: header.initial_bootloader_contents,
        merkle_paths_input,
    })
}

} // verus!
