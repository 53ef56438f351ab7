use basic_witness::bytecodes::{requested_bytecode_hashes, resolve_bytecodes};
use basic_witness::input::{build_basic_circuits_witness_generator_input, BuildError};
use basic_witness::types::{bootloader_address, Address, BlockHeader, U256};
use basic_witness::witness::{assemble_run_input, excluded_hashes, should_dump_arguments};

fn h(v: u64) -> U256 {
    U256::from_u64(v)
}

fn header(number: u32, timestamp: u64) -> BlockHeader {
    BlockHeader {
        number,
        timestamp,
        used_contract_hashes: vec![h(1), h(2), h(3), h(2)],
        initial_bootloader_contents: vec![(0, h(9))],
        bootloader_hash: h(1),
        default_aa_hash: h(3),
    }
}

#[test]
fn builds_input_when_predecessor_is_rooted() {
    let r = build_basic_circuits_witness_generator_input(
        "paths",
        100,
        Some(header(100, 2000)),
        Some(header(99, 1000)),
        Some(h(77)),
    );
    let input = r.unwrap();
    assert_eq!(input.block_number, 100);
    assert_eq!(input.previous_block_timestamp, 1000);
    assert_eq!(input.block_timestamp, 2000);
    assert_eq!(input.previous_block_hash, h(77));
    assert_eq!(input.used_bytecodes_hashes, vec![h(1), h(2), h(3), h(2)]);
    assert_eq!(input.initial_heap_content, vec![(0, h(9))]);
    assert_eq!(input.merkle_paths_input, "paths");
}

#[test]
fn missing_predecessor_root_fails() {
    let r = build_basic_circuits_witness_generator_input(
        (),
        101,
        Some(header(101, 2000)),
        Some(header(100, 1000)),
        None,
    );
    assert_eq!(r.err(), Some(BuildError::MissingPredecessorState));
    // Block 0 has no predecessor at all.
    let r0 = build_basic_circuits_witness_generator_input((), 0, Some(header(0, 1)), None, Some(h(1)));
    assert_eq!(r0.err(), Some(BuildError::MissingPredecessorState));
}

#[test]
fn missing_headers_fail() {
    let r = build_basic_circuits_witness_generator_input((), 5, None, Some(header(4, 1)), Some(h(1)));
    assert_eq!(r.err(), Some(BuildError::MissingBlockHeader { block: 5 }));
    let r = build_basic_circuits_witness_generator_input((), 5, Some(header(5, 1)), None, Some(h(1)));
    assert_eq!(r.err(), Some(BuildError::MissingBlockHeader { block: 4 }));
}

#[test]
fn requested_hashes_skip_exclusions_and_duplicates() {
    let used = vec![h(1), h(2), h(3), h(2), h(4)];
    let r = requested_bytecode_hashes(&used, &vec![h(1), h(4)]);
    assert_eq!(r, vec![h(2), h(3)]);
}

#[test]
fn resolution_counts_missing_bytecodes() {
    let requested = vec![h(2), h(3), h(5), h(6)];
    let fetched = vec![(h(2), vec![0xaa])];
    let r = resolve_bytecodes(&requested, &fetched, h(3), &vec![0xcc]);
    assert_eq!(r.err(), Some(BuildError::MissingBytecodes { missing: 2 }));
}

#[test]
fn resolution_uses_account_code_and_latest_row() {
    let requested = vec![h(2), h(3)];
    let fetched = vec![(h(2), vec![1]), (h(3), vec![2]), (h(2), vec![3])];
    let r = resolve_bytecodes(&requested, &fetched, h(3), &vec![0xcc]).unwrap();
    assert_eq!(r, vec![(h(2), vec![3]), (h(3), vec![0xcc])]);
}

fn input_for(block: u32) -> basic_witness::input::WitnessGeneratorInput<u8> {
    build_basic_circuits_witness_generator_input(
        7u8,
        block,
        Some(header(block, 20)),
        Some(header(block - 1, 10)),
        Some(h(55)),
    )
    .unwrap()
}

#[test]
fn assembles_engine_arguments() {
    let hd = header(100, 20);
    let excluded = excluded_hashes(&hd, &vec![]);
    assert_eq!(excluded, vec![h(1)]);
    let fetched = vec![(h(2), vec![0x22])];
    let a = assemble_run_input(
        input_for(100),
        &hd,
        Some(vec![0xb0; 32]),
        Some(vec![0xa0; 32]),
        &excluded,
        &fetched,
        Some(4321),
        1000,
    )
    .unwrap();
    assert_eq!(a.l1_batch_number, 100);
    assert_eq!(a.last_miniblock_number, 4321);
    assert_eq!(a.caller, Address::zero());
    assert_eq!(a.entry_point_address, bootloader_address());
    assert_eq!(a.entry_point_address, Address { hi: 0, lo: 0x8001 });
    assert_eq!(a.entry_point_code, vec![0xb0; 32]);
    assert!(!a.zk_porter_is_available);
    assert_eq!(a.default_aa_code_hash, h(3));
    assert_eq!(a.used_bytecodes, vec![(h(2), vec![0x22]), (h(3), vec![0xa0; 32])]);
    assert!(a.ram_verification_queries.is_empty());
    assert_eq!(a.cycle_limit, 1000);
    assert_eq!(a.previous_block_hash, h(55));
    assert_eq!(a.merkle_paths_input, 7u8);
}

#[test]
fn assembly_errors_in_order() {
    let hd = header(100, 20);
    let ex = excluded_hashes(&hd, &vec![]);
    let fetched = vec![(h(2), vec![0x22])];
    let r = assemble_run_input(input_for(100), &hd, None, None, &ex, &fetched, Some(1), 1);
    assert_eq!(r.err(), Some(BuildError::MissingBootloaderBytecode));
    let r = assemble_run_input(input_for(100), &hd, Some(vec![1]), None, &ex, &fetched, Some(1), 1);
    assert_eq!(r.err(), Some(BuildError::MissingDefaultAccountBytecode));
    let r = assemble_run_input(input_for(100), &hd, Some(vec![1]), Some(vec![2]), &ex, &vec![], Some(1), 1);
    assert_eq!(r.err(), Some(BuildError::MissingBytecodes { missing: 1 }));
    let r = assemble_run_input(input_for(100), &hd, Some(vec![1]), Some(vec![2]), &ex, &fetched, None, 1);
    assert_eq!(r.err(), Some(BuildError::MissingMiniblockRange { block: 99 }));
}

#[test]
fn extra_exclusions_are_left_out() {
    let hd = header(100, 20);
    let ex = excluded_hashes(&hd, &vec![h(2)]);
    assert_eq!(ex, vec![h(1), h(2)]);
    let a = assemble_run_input(input_for(100), &hd, Some(vec![1]), Some(vec![2]), &ex, &vec![], Some(1), 1)
        .unwrap();
    assert_eq!(a.used_bytecodes, vec![(h(3), vec![2])]);
}

#[test]
fn dump_only_listed_blocks() {
    assert!(should_dump_arguments(&vec![3, 100], 100));
    assert!(!should_dump_arguments(&vec![3, 100], 101));
    assert!(!should_dump_arguments(&vec![], 0));
}
