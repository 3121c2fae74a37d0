use sbv_primitives::block::{
    count_l1_txs, count_l2_txs, encode_da_header, find_max_l1_queue_index, Block, BlockHeader,
    BlockTrace,
};
use sbv_primitives::primitives::{Address, TxKind, B256, U256};
use sbv_primitives::proof_import::ImportAction;
use sbv_primitives::trace::TransactionTrace;
use tiny_keccak::{Hasher, Keccak};

fn tx_of(ty: u8, nonce: u64, hash_byte: u8) -> TransactionTrace {
    TransactionTrace {
        tx_hash: B256 { bytes: [hash_byte; 32] },
        ty,
        nonce,
        gas_limit: 100_000,
        gas_price: 1,
        max_fee_per_gas: 1,
        max_priority_fee_per_gas: 1,
        from: Address { bytes: [0x01; 20] },
        to: TxKind::Create,
        chain_id: Some(1),
        value: U256::zero(),
        data: Vec::new(),
        access_list: Vec::new(),
        v: 0,
        r: U256::from_u64(1),
        s: U256::from_u64(1),
    }
}

fn header_of(number: u64, start_l1_queue_index: u64) -> BlockHeader {
    BlockHeader {
        number,
        block_hash: B256 { bytes: [0x0b; 32] },
        chain_id: 534352,
        coinbase: Address { bytes: [0x0c; 20] },
        timestamp: U256::from_u64(0x6500_0000),
        gas_limit: U256::from_u64(10_000_000),
        gas_used: U256::from_u64(21_000),
        base_fee_per_gas: Some(U256::from_u64(0x0102)),
        difficulty: U256::zero(),
        prevrandao: None,
        root_before: B256 { bytes: [0x0d; 32] },
        root_after: B256 { bytes: [0x0e; 32] },
        withdraw_root: B256 { bytes: [0x0f; 32] },
        start_l1_queue_index,
    }
}

fn block_of(header: BlockHeader, transactions: Vec<TransactionTrace>) -> BlockTrace {
    BlockTrace { header, transactions, codes: Vec::new(), node_proofs: Vec::new() }
}

fn keccak256_of(input: &[u8]) -> [u8; 32] {
    let mut hasher = Keccak::v256();
    hasher.update(input);
    let mut out = [0u8; 32];
    hasher.finalize(&mut out);
    out
}

fn absorbed_by(feed: impl FnOnce(&mut Keccak)) -> [u8; 32] {
    let mut hasher = Keccak::v256();
    feed(&mut hasher);
    let mut out = [0u8; 32];
    hasher.finalize(&mut out);
    out
}

#[test]
fn block_without_l1_messages_covers_no_queue_entry() {
    let block = block_of(header_of(1, 100), vec![tx_of(0, 1, 1), tx_of(2, 2, 2)]);
    assert_eq!(block.num_l1_txs(), 0);
    assert_eq!(block_of(header_of(1, 100), Vec::new()).num_l1_txs(), 0);
}

#[test]
fn l1_count_spans_the_queue_up_to_the_highest_index() {
    let txs = vec![tx_of(0x7e, 100, 1), tx_of(0x7e, 101, 2), tx_of(0x7e, 105, 3)];
    let block = block_of(header_of(1, 100), txs);
    assert_eq!(block.num_l1_txs(), 6);
    assert_eq!(block.num_txs(), 3);
}

#[test]
fn l1_count_does_not_depend_on_the_order_of_the_records() {
    let txs = vec![tx_of(0x7e, 105, 1), tx_of(0, 900, 2), tx_of(0x7e, 100, 3), tx_of(0x7e, 101, 4)];
    assert_eq!(find_max_l1_queue_index(&txs), Some(105));
    assert_eq!(count_l1_txs(&txs, 100), 6);
    assert_eq!(count_l1_txs(&txs, 105), 1);
    assert_eq!(count_l1_txs(&txs, 0), 106);
}

#[test]
fn l1_count_is_taken_in_64_bits() {
    let txs = vec![tx_of(0x7e, 3, 1)];
    // The highest index lies below the start: the span wraps.
    assert_eq!(count_l1_txs(&txs, 5), u64::MAX);
    assert_eq!(count_l1_txs(&txs, 4), 0);
    let top = vec![tx_of(0x7e, u64::MAX, 1)];
    assert_eq!(count_l1_txs(&top, 0), 0);
    assert_eq!(count_l1_txs(&top, 1), u64::MAX);
}

#[test]
fn l2_count_leaves_the_l1_messages_out() {
    let mut txs = Vec::new();
    for i in 0..5u64 {
        txs.push(tx_of((i % 3) as u8, i, i as u8));
    }
    for i in 0..3u64 {
        txs.push(tx_of(0x7e, 50 + i, 0x70 + i as u8));
    }
    let block = block_of(header_of(9, 50), txs);
    assert_eq!(block.num_l2_txs(), 5);
    assert_eq!(block.num_l1_txs(), 3);
    assert_eq!(count_l2_txs(block.transactions()), 5);
}

#[test]
fn da_header_has_the_fixed_layout() {
    let timestamp = U256 { limbs: [0x1122_3344_5566_7788, 9, 9, 9] };
    let base_fee = U256 { limbs: [4, 3, 2, 1] };
    let gas_limit = U256 { limbs: [0x0a0b_0c0d_0e0f_1011, 0xffff, 0, 0] };
    let bytes = encode_da_header(0x0102_0304_0506_0708, &timestamp, &Some(base_fee), &gas_limit, 0x0001_abcd);
    let mut expected: Vec<u8> = Vec::new();
    expected.extend_from_slice(&[0x01, 0x02, 0x03, 0x04, 0x05, 0x06, 0x07, 0x08]);
    expected.extend_from_slice(&[0x11, 0x22, 0x33, 0x44, 0x55, 0x66, 0x77, 0x88]);
    let mut fee = [0u8; 32];
    fee[7] = 1;
    fee[15] = 2;
    fee[23] = 3;
    fee[31] = 4;
    expected.extend_from_slice(&fee);
    expected.extend_from_slice(&[0x0a, 0x0b, 0x0c, 0x0d, 0x0e, 0x0f, 0x10, 0x11]);
    expected.extend_from_slice(&[0xab, 0xcd]);
    assert_eq!(bytes.len(), 58);
    assert_eq!(bytes, expected);
}

#[test]
fn da_header_writes_zero_for_an_absent_base_fee() {
    let zero = U256::zero();
    let without = encode_da_header(7, &zero, &None, &zero, 0);
    let with_zero = encode_da_header(7, &zero, &Some(zero), &zero, 0);
    assert_eq!(without, with_zero);
    assert_eq!(&without[16..48], &[0u8; 32]);
    assert_eq!(&without[0..8], &7u64.to_be_bytes());
}

#[test]
fn transaction_count_wraps_at_16_bits() {
    let t = U256::from_u64(1);
    let at_zero = encode_da_header(1, &t, &None, &t, 0);
    let at_wrap = encode_da_header(1, &t, &None, &t, 65536);
    assert_eq!(at_zero, at_wrap);
    assert_eq!(&at_wrap[56..58], &[0, 0]);
    let below = encode_da_header(1, &t, &None, &t, 65535);
    assert_eq!(&below[56..58], &[0xff, 0xff]);
    let above = encode_da_header(1, &t, &None, &t, 65537);
    assert_eq!(&above[56..58], &[0, 1]);
}

#[test]
fn block_with_65536_transactions_commits_like_an_empty_one() {
    let mut txs = Vec::new();
    for i in 0..65536u64 {
        txs.push(tx_of(0, i, 0));
    }
    let full = block_of(header_of(3, 0), txs);
    let empty = block_of(header_of(3, 0), Vec::new());
    assert_eq!(full.num_l2_txs(), 65536);
    assert_eq!(full.da_header_digest(), empty.da_header_digest());
    assert_eq!(
        absorbed_by(|h| full.hash_da_header(h)),
        absorbed_by(|h| empty.hash_da_header(h))
    );
}

#[test]
fn block_feeds_its_header_bytes_to_the_hasher() {
    let txs = vec![tx_of(0x7e, 100, 1), tx_of(0, 0, 2), tx_of(0x7e, 105, 3)];
    let block = block_of(header_of(0x2a, 100), txs);
    // Six queue entries and one other transaction.
    let expected = encode_da_header(
        0x2a,
        &U256::from_u64(0x6500_0000),
        &Some(U256::from_u64(0x0102)),
        &U256::from_u64(10_000_000),
        7,
    );
    assert_eq!(&expected[56..58], &[0, 7]);
    assert_eq!(absorbed_by(|h| block.hash_da_header(h)), keccak256_of(&expected));
    assert_eq!(block.da_header_digest().bytes, keccak256_of(&expected));
}

#[test]
fn hasher_keeps_what_it_absorbed_before() {
    let block = block_of(header_of(5, 0), vec![tx_of(0x7e, 0, 9)]);
    let header = encode_da_header(
        5,
        &U256::from_u64(0x6500_0000),
        &Some(U256::from_u64(0x0102)),
        &U256::from_u64(10_000_000),
        1,
    );
    let mut expected: Vec<u8> = vec![1, 2, 3];
    expected.extend_from_slice(&header);
    expected.extend_from_slice(&[9u8; 32]);
    let got = absorbed_by(|h| {
        h.update(&[1, 2, 3]);
        block.hash_da_header(h);
        block.hash_l1_msg(h);
    });
    assert_eq!(got, keccak256_of(&expected));
}

#[test]
fn da_digest_is_the_same_for_the_same_fields() {
    let a = block_of(header_of(77, 0), vec![tx_of(2, 1, 1)]);
    let mut other_header = header_of(77, 0);
    // Fields outside the commitment may differ.
    other_header.block_hash = B256 { bytes: [0x99; 32] };
    other_header.coinbase = Address { bytes: [0x98; 20] };
    other_header.gas_used = U256::from_u64(1);
    let b = block_of(other_header, vec![tx_of(0, 5, 7)]);
    assert_eq!(a.da_header_digest(), a.da_header_digest());
    assert_eq!(a.da_header_digest(), b.da_header_digest());
}

#[test]
fn da_digest_changes_with_each_committed_field() {
    let base = block_of(header_of(77, 0), vec![tx_of(2, 1, 1)]);
    let digest = base.da_header_digest();

    let mut h = header_of(78, 0);
    assert_ne!(block_of(h, vec![tx_of(2, 1, 1)]).da_header_digest(), digest);

    h = header_of(77, 0);
    h.timestamp = U256::from_u64(0x6500_0001);
    assert_ne!(block_of(h, vec![tx_of(2, 1, 1)]).da_header_digest(), digest);

    h = header_of(77, 0);
    h.base_fee_per_gas = None;
    assert_ne!(block_of(h, vec![tx_of(2, 1, 1)]).da_header_digest(), digest);

    h = header_of(77, 0);
    h.gas_limit = U256::from_u64(10_000_001);
    assert_ne!(block_of(h, vec![tx_of(2, 1, 1)]).da_header_digest(), digest);

    h = header_of(77, 0);
    assert_ne!(block_of(h, Vec::new()).da_header_digest(), digest);
}

#[test]
fn timestamp_and_gas_limit_enter_by_their_low_64_bits() {
    let mut wide = header_of(1, 0);
    wide.timestamp = U256 { limbs: [0x6500_0000, 5, 0, 1] };
    wide.gas_limit = U256 { limbs: [10_000_000, 0, 7, 0] };
    let narrow = header_of(1, 0);
    assert_eq!(
        block_of(wide, Vec::new()).da_header_digest(),
        block_of(narrow, Vec::new()).da_header_digest()
    );
}

#[test]
fn l1_message_hashes_are_fed_in_block_order() {
    let txs = vec![tx_of(0x7e, 3, 0xa1), tx_of(0, 0, 0xb2), tx_of(0x7e, 1, 0xc3), tx_of(2, 0, 0xd4)];
    let block = block_of(header_of(1, 0), txs);
    let mut expected = vec![0xa1u8; 32];
    expected.extend_from_slice(&[0xc3u8; 32]);
    assert_eq!(absorbed_by(|h| block.hash_l1_msg(h)), keccak256_of(&expected));
    assert_eq!(block.l1_msg_digest().bytes, keccak256_of(&expected));
}

#[test]
fn block_without_l1_messages_feeds_nothing() {
    let block = block_of(header_of(1, 0), vec![tx_of(0, 0, 1), tx_of(1, 1, 2)]);
    let empty_digest: [u8; 32] = [
        0xc5, 0xd2, 0x46, 0x01, 0x86, 0xf7, 0x23, 0x3c, 0x92, 0x7e, 0x7d, 0xb2, 0xdc, 0xc7, 0x03,
        0xc0, 0xe5, 0x00, 0xb6, 0x53, 0xca, 0x82, 0x27, 0x3b, 0x7b, 0xfa, 0xd8, 0x04, 0x5d, 0x85,
        0xa4, 0x70,
    ];
    assert_eq!(block.l1_msg_digest().bytes, empty_digest);
    assert_eq!(absorbed_by(|h| block.hash_l1_msg(h)), empty_digest);
}

#[test]
fn block_hands_out_its_header_fields() {
    let header = header_of(12, 34);
    let mut block = block_of(header, vec![tx_of(0, 0, 1)]);
    block.codes = vec![vec![0x60, 0x00], vec![]];
    block.node_proofs = vec![vec![1], vec![2, 3], vec![4]];
    assert_eq!(block.number(), 12);
    assert_eq!(block.block_hash(), header.block_hash);
    assert_eq!(Block::chain_id(&block), 534352);
    assert_eq!(block.coinbase(), header.coinbase);
    assert_eq!(block.timestamp(), header.timestamp);
    assert_eq!(Block::gas_limit(&block), header.gas_limit);
    assert_eq!(block.gas_used(), header.gas_used);
    assert_eq!(block.base_fee_per_gas(), header.base_fee_per_gas);
    assert_eq!(block.difficulty(), header.difficulty);
    assert_eq!(block.prevrandao(), None);
    assert_eq!(block.root_before(), header.root_before);
    assert_eq!(block.root_after(), header.root_after);
    assert_eq!(block.withdraw_root(), header.withdraw_root);
    assert_eq!(block.start_l1_queue_index(), 34);
    assert_eq!(block.num_txs(), 1);
    assert_eq!(block.transactions().len(), 1);
    assert_eq!(block.codes().len(), 2);
    assert_eq!(block.node_proofs().len(), 3);
    assert_eq!(block.proof_import().next_action(), ImportAction::Import { index: 0 });
}
