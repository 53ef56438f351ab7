//! Plain values shared by the builder and the orchestrator.

use vstd::prelude::*;

verus! {

/// A 256-bit word (a hash or a storage value), as four 64-bit limbs, most
/// significant first.
#[derive(Clone, Copy, Debug, PartialEq, Eq, Structural)]
pub struct U256 {
    pub w0: u64,
    pub w1: u64,
    pub w2: u64,
    pub w3: u64,
}

impl U256 {
    /// The word of a small number.
    pub fn from_u64(v: u64) -> (r: U256)
        ensures
            r == (U256 { w0: 0, w1: 0, w2: 0, w3: v }),
    {
        U256 { w0: 0, w1: 0, w2: 0, w3: v }
    }
}

/// A 160-bit account address: the high 32 bits and the low 128 bits.
#[derive(Clone, Copy, Debug, PartialEq, Eq, Structural)]
pub struct Address {
    pub hi: u32,
    pub lo: u128,
}

impl Address {
    /// The all-zero address.
    pub fn zero() -> (r: Address)
        ensures
            r == (Address { hi: 0, lo: 0 }),
    {
        Address { hi: 0, lo: 0 }
    }
}

/// Address of the bootloader, the entry point of a block's execution.
pub const BOOTLOADER_ADDRESS_LO: u128 = 0x8001;

/// The bootloader's address.
pub fn bootloader_address() -> (r: Address)
    ensures
        r == (Address { hi: 0, lo: BOOTLOADER_ADDRESS_LO }),
{
    Address { hi: 0, lo: BOOTLOADER_ADDRESS_LO }
}

/// The header fields of a block that the witness input needs.
#[derive(Clone, Debug)]
pub struct BlockHeader {
    pub number: u32,
    pub timestamp: u64,
    pub used_contract_hashes: Vec<U256>,
    /// Initial bootloader memory, as (word offset, value) pairs.
    pub initial_bootloader_contents: Vec<(usize, U256)>,
    pub bootloader_hash: U256,
    pub default_aa_hash: U256,
}

} // verus!
