//! A block trace: its header fields, its transaction records, and what is
//! derived from them for the data-availability commitment.
//!
//! The commitment covers five header fields in a fixed layout of 58 bytes, and
//! the hashes of the messages from L1 in the order of the block.

use crate::bytes::{
    be_bytes, byte_strings, lemma_be_bytes_injective, lemma_be_bytes_len, lemma_pow256_values,
    pow256, u16_to_be_bytes, u64_to_be_bytes,
};
use crate::hasher::{
    keccak256, keccak_absorbed, keccak_bits, keccak_finalize, keccak_update, keccak_v256,
};
use crate::primitives::{limb_base, Address, B256, U256};
use crate::proof_import::ProofImport;
use crate::trace::{TransactionTrace, TxTrace};
use crate::transaction::L1_MSG_TX_TYPE;
use tiny_keccak::Keccak;
use vstd::prelude::*;

verus! {

/// The scalar fields of a block trace.
#[derive(Clone, Copy, Debug, PartialEq, Eq)]
pub struct BlockHeader {
    pub number: u64,
    pub block_hash: B256,
    pub chain_id: u64,
    pub coinbase: Address,
    pub timestamp: U256,
    pub gas_limit: U256,
    pub gas_used: U256,
    /// Absent before the fee market.
    pub base_fee_per_gas: Option<U256>,
    pub difficulty: U256,
    pub prevrandao: Option<B256>,
    pub root_before: B256,
    pub root_after: B256,
    pub withdraw_root: B256,
    /// The queue index of the first message from L1 that this block may
    /// include.
    pub start_l1_queue_index: u64,
}

/// How many of the records are not messages from L1.
pub open spec fn l2_count<T: TxTrace>(txs: Seq<T>) -> nat
    decreases txs.len(),
{
    if txs.len() == 0 {
        0
    } else {
        l2_count(txs.drop_last()) + if txs.last().record().ty == L1_MSG_TX_TYPE {
            0nat
        } else {
            1nat
        }
    }
}

/// The highest queue index among the messages from L1, if there is any
/// message from L1.
pub open spec fn max_l1_queue_index<T: TxTrace>(txs: Seq<T>) -> Option<u64>
    decreases txs.len(),
{
    if txs.len() == 0 {
        None
    } else {
        let before = max_l1_queue_index(txs.drop_last());
        let last = txs.last().record();
        if last.ty != L1_MSG_TX_TYPE {
            before
        } else if before is Some && before->Some_0 >= last.nonce {
            before
        } else {
            Some(last.nonce)
        }
    }
}

/// The span of the L1 queue that a block covers: nothing without a message
/// from L1, else from `start` to the highest index present, both included.
/// Indices in between that the block skips are counted. The count is taken in
/// 64 bits: where `end - start + 1` is no 64-bit number it wraps.
pub open spec fn l1_span(end: Option<u64>, start: u64) -> u64 {
    match end {
        None => 0,
        Some(end) => ((end - start + 1) % (limb_base() as int)) as u64,
    }
}

/// The number of L1 queue entries that the records cover from `start` on.
pub open spec fn l1_count<T: TxTrace>(txs: Seq<T>, start: u64) -> u64 {
    l1_span(max_l1_queue_index(txs), start)
}

/// The hashes of the messages from L1, in the order of the records, one after
/// the other.
pub open spec fn l1_msg_hashes<T: TxTrace>(txs: Seq<T>) -> Seq<u8>
    decreases txs.len(),
{
    if txs.len() == 0 {
        Seq::empty()
    } else {
        let last = txs.last().record();
        l1_msg_hashes(txs.drop_last()) + if last.ty == L1_MSG_TX_TYPE {
            last.tx_hash.bytes@
        } else {
            Seq::empty()
        }
    }
}

/// The base fee that enters the commitment: zero where the block has none.
pub open spec fn base_fee_value(base_fee_per_gas: Option<U256>) -> nat {
    match base_fee_per_gas {
        Some(fee) => fee@,
        None => 0,
    }
}

/// The 58 bytes of a block that the data-availability commitment covers:
/// the number in 8 bytes, the timestamp cut to 64 bits in 8 bytes, the base
/// fee in 32 bytes, the gas limit cut to 64 bits in 8 bytes, and the number of
/// transactions cut to 16 bits in 2 bytes, each most significant byte first.
///
/// The last field is two bytes wide by format: a count of 65536 is written as
/// a count of 0.
pub open spec fn da_header_bytes(
    number: u64,
    timestamp: nat,
    base_fee: nat,
    gas_limit: nat,
    num_txs: nat,
) -> Seq<u8> {
    be_bytes(number as nat, 8) + be_bytes(timestamp % pow256(8), 8) + be_bytes(base_fee, 32)
        + be_bytes(gas_limit % pow256(8), 8) + be_bytes(num_txs % pow256(2), 2)
}

/// The highest queue index among the messages from L1 is the index of one of
/// them, and no message from L1 has a higher one; there is none exactly when
/// no record is a message from L1.
pub proof fn lemma_max_l1_queue_index<T: TxTrace>(txs: Seq<T>)
    ensures
        max_l1_queue_index(txs) is None <==> forall|i: int|
            0 <= i < txs.len() ==> (#[trigger] txs[i]).record().ty != L1_MSG_TX_TYPE,
        max_l1_queue_index(txs) matches Some(end) ==> {
            &&& exists|i: int|
                0 <= i < txs.len() && (#[trigger] txs[i]).record().ty == L1_MSG_TX_TYPE
                    && txs[i].record().nonce == end
            &&& forall|i: int|
                0 <= i < txs.len() && (#[trigger] txs[i]).record().ty == L1_MSG_TX_TYPE
                    ==> txs[i].record().nonce <= end
        },
    decreases txs.len(),
{
    if txs.len() > 0 {
        let rest = txs.drop_last();
        lemma_max_l1_queue_index(rest);
        let n = txs.len() - 1;
        assert(forall|i: int| 0 <= i < n ==> rest[i] == txs[i]);
        let last = txs.last().record();
        let before = max_l1_queue_index(rest);
        if last.ty == L1_MSG_TX_TYPE {
            assert(txs[n].record().ty == L1_MSG_TX_TYPE);
            if before is Some && before->Some_0 >= last.nonce {
                let w = choose|i: int|
                    0 <= i < rest.len() && (#[trigger] rest[i]).record().ty == L1_MSG_TX_TYPE
                        && rest[i].record().nonce == before->Some_0;
                assert(txs[w].record().ty == L1_MSG_TX_TYPE && txs[w].record().nonce
                    == before->Some_0);
            }
        } else {
            if before is Some {
                let w = choose|i: int|
                    0 <= i < rest.len() && (#[trigger] rest[i]).record().ty == L1_MSG_TX_TYPE
                        && rest[i].record().nonce == before->Some_0;
                assert(txs[w].record().ty == L1_MSG_TX_TYPE && txs[w].record().nonce
                    == before->Some_0);
            }
        }
    }
}

/// Where the highest index present is not below `start` and the span fits 64
/// bits, the count is `end - start + 1`.
pub proof fn lemma_l1_span_in_range(end: u64, start: u64)
    requires
        start <= end,
        end - start + 1 <= u64::MAX,
    ensures
        l1_span(Some(end), start) == end - start + 1,
{
    vstd::arithmetic::div_mod::lemma_small_mod((end - start + 1) as nat, limb_base());
}

/// Without a message from L1 a block covers no queue entry. With one, and
/// with the highest index present not below the block's first index, it
/// covers the span between the two, both included, however few of the
/// indices in between are present.
pub proof fn lemma_l1_count<T: TxTrace>(txs: Seq<T>, start: u64, k: int)
    ensures
        (forall|i: int| 0 <= i < txs.len() ==> (#[trigger] txs[i]).record().ty != L1_MSG_TX_TYPE)
            ==> l1_count(txs, start) == 0,
        ({
            &&& 0 <= k < txs.len()
            &&& txs[k].record().ty == L1_MSG_TX_TYPE
            &&& forall|i: int|
                0 <= i < txs.len() && (#[trigger] txs[i]).record().ty == L1_MSG_TX_TYPE
                    ==> txs[i].record().nonce <= txs[k].record().nonce
            &&& start <= txs[k].record().nonce
            &&& txs[k].record().nonce - start + 1 <= u64::MAX
        }) ==> l1_count(txs, start) == txs[k].record().nonce - start + 1,
{
    lemma_max_l1_queue_index(txs);
    if 0 <= k < txs.len() && txs[k].record().ty == L1_MSG_TX_TYPE && start
        <= txs[k].record().nonce && txs[k].record().nonce - start + 1 <= u64::MAX {
        if forall|i: int|
            0 <= i < txs.len() && (#[trigger] txs[i]).record().ty == L1_MSG_TX_TYPE
                ==> txs[i].record().nonce <= txs[k].record().nonce {
            let end = max_l1_queue_index(txs)->Some_0;
            assert(end == txs[k].record().nonce);
            lemma_l1_span_in_range(end, start);
        }
    }
}

/// The number of records that are not messages from L1.
pub fn count_l2_txs<T: TxTrace>(txs: &Vec<T>) -> (r: u64)
    ensures
        r == l2_count(txs@),
{
    let mut n: u64 = 0;
    let mut i: usize = 0;
    while i < txs.len()
        invariant
            i <= txs.len(),
            n == l2_count(txs@.take(i as int)),
            n <= i,
        decreases txs.len() - i,
    {
        assert(txs@.take(i + 1).drop_last() == txs@.take(i as int));
        if !txs[i].is_l1_tx() {
            n = n + 1;
        }
        i = i + 1;
    }
    assert(txs@.take(i as int) == txs@);
    n
}

/// The highest queue index among the messages from L1.
pub fn find_max_l1_queue_index<T: TxTrace>(txs: &Vec<T>) -> (r: Option<u64>)
    ensures
        r == max_l1_queue_index(txs@),
{
    let mut end: Option<u64> = None;
    let mut i: usize = 0;
    while i < txs.len()
        invariant
            i <= txs.len(),
            end == max_l1_queue_index(txs@.take(i as int)),
        decreases txs.len() - i,
    {
        assert(txs@.take(i + 1).drop_last() == txs@.take(i as int));
        if txs[i].is_l1_tx() {
            let index: u64 = txs[i].nonce();
            end = match end {
                Some(highest) if highest >= index => Some(highest),
                _ => Some(index),
            };
        }
        i = i + 1;
    }
    assert(txs@.take(i as int) == txs@);
    end
}

/// The number of L1 queue entries that the records cover from `start` on.
pub fn count_l1_txs<T: TxTrace>(txs: &Vec<T>, start: u64) -> (r: u64)
    ensures
        r == l1_count(txs@, start),
{
    match find_max_l1_queue_index(txs) {
        None => 0,
        Some(end) => {
            let r: u64 = end.wrapping_sub(start).wrapping_add(1);
            proof {
                let d = end - start + 1;
                let m = limb_base() as int;
                if d < 0 {
                    vstd::arithmetic::div_mod::lemma_fundamental_div_mod_converse(d, m, -1, d + m);
                } else if d >= m {
                    vstd::arithmetic::div_mod::lemma_fundamental_div_mod_converse(d, m, 1, d - m);
                } else {
                    vstd::arithmetic::div_mod::lemma_small_mod(d as nat, m as nat);
                }
            }
            r
        },
    }
}

/// Feeds the hash of every message from L1 to the hasher, in the order of the
/// records, and nothing of any other record.
pub fn absorb_l1_msg_hashes<T: TxTrace>(txs: &Vec<T>, hasher: &mut Keccak)
    ensures
        keccak_absorbed(*final(hasher)) == keccak_absorbed(*old(hasher)) + l1_msg_hashes(txs@),
        keccak_bits(*final(hasher)) == keccak_bits(*old(hasher)),
{
    let ghost before = keccak_absorbed(*hasher);
    let ghost bits = keccak_bits(*hasher);
    let mut i: usize = 0;
    assert(before + l1_msg_hashes(txs@.take(0)) == before);
    while i < txs.len()
        invariant
            i <= txs.len(),
            keccak_absorbed(*hasher) == before + l1_msg_hashes(txs@.take(i as int)),
            keccak_bits(*hasher) == bits,
        decreases txs.len() - i,
    {
        assert(txs@.take(i + 1).drop_last() == txs@.take(i as int));
        if txs[i].is_l1_tx() {
            let hash: B256 = txs[i].tx_hash();
            keccak_update(hasher, hash.bytes.as_slice());
            assert(before + (l1_msg_hashes(txs@.take(i as int)) + hash.bytes@) == (before
                + l1_msg_hashes(txs@.take(i as int))) + hash.bytes@);
        } else {
            assert(l1_msg_hashes(txs@.take(i as int)) + Seq::<u8>::empty() == l1_msg_hashes(
                txs@.take(i as int),
            ));
        }
        i = i + 1;
    }
    assert(txs@.take(i as int) == txs@);
}

/// Appends the bytes of `part` to `out`.
fn append_bytes(out: &mut Vec<u8>, part: &[u8])
    ensures
        final(out)@ == old(out)@ + part@,
{
    let ghost before = out@;
    let mut i: usize = 0;
    assert(before + part@.take(0) == before);
    while i < part.len()
        invariant
            i <= part.len(),
            out@ == before + part@.take(i as int),
        decreases part.len() - i,
    {
        out.push(part[i]);
        assert(before + part@.take(i + 1) == (before + part@.take(i as int)).push(part@[i as int]));
        i = i + 1;
    }
    assert(part@.take(i as int) == part@);
}

/// The 58 bytes of a block that the data-availability commitment covers.
///
/// `num_txs` is the number of transactions; only its low 16 bits are written.
pub fn encode_da_header(
    number: u64,
    timestamp: &U256,
    base_fee_per_gas: &Option<U256>,
    gas_limit: &U256,
    num_txs: u64,
) -> (r: Vec<u8>)
    ensures
        r@ == da_header_bytes(
            number,
            timestamp@,
            base_fee_value(*base_fee_per_gas),
            gas_limit@,
            num_txs as nat,
        ),
        r.len() == 58,
{
    let base_fee: U256 = match base_fee_per_gas {
        Some(fee) => *fee,
        None => U256::zero(),
    };
    let count: u16 = (num_txs % 65536) as u16;
    let number_bytes: [u8; 8] = u64_to_be_bytes(number);
    let timestamp_bytes: [u8; 8] = u64_to_be_bytes(timestamp.low_u64());
    let base_fee_bytes: [u8; 32] = base_fee.to_be_bytes();
    let gas_limit_bytes: [u8; 8] = u64_to_be_bytes(gas_limit.low_u64());
    let count_bytes: [u8; 2] = u16_to_be_bytes(count);
    let mut r: Vec<u8> = Vec::new();
    append_bytes(&mut r, number_bytes.as_slice());
    append_bytes(&mut r, timestamp_bytes.as_slice());
    append_bytes(&mut r, base_fee_bytes.as_slice());
    append_bytes(&mut r, gas_limit_bytes.as_slice());
    append_bytes(&mut r, count_bytes.as_slice());
    proof {
        lemma_pow256_values();
        assert(Seq::<u8>::empty() + number_bytes@ == number_bytes@);
        lemma_be_bytes_len(number as nat, 8);
        lemma_be_bytes_len(timestamp@ % pow256(8), 8);
        lemma_be_bytes_len(base_fee@, 32);
        lemma_be_bytes_len(gas_limit@ % pow256(8), 8);
        lemma_be_bytes_len((num_txs as nat) % pow256(2), 2);
    }
    r
}

/// What every block trace offers: its header fields, its transaction records
/// in the order of inclusion, its code blobs and its proof fragments; and,
/// derived from these, the transaction counts and the bytes that enter the
/// data-availability commitment.
pub trait Block {
    /// The kind of transaction record that the trace holds.
    type Tx: TxTrace;

    /// The header fields of this block.
    spec fn header(&self) -> BlockHeader;

    /// The transaction records, in the order of inclusion.
    spec fn spec_transactions(&self) -> Seq<Self::Tx>;

    /// The code blobs.
    spec fn spec_codes(&self) -> Seq<Seq<u8>>;

    /// The proof fragments. Their order carries no meaning.
    spec fn spec_node_proofs(&self) -> Seq<Seq<u8>>;

    /// The block number.
    fn number(&self) -> (r: u64)
        ensures
            r == self.header().number,
    ;

    /// The hash of the block.
    fn block_hash(&self) -> (r: B256)
        ensures
            r == self.header().block_hash,
    ;

    /// The chain that the block belongs to.
    fn chain_id(&self) -> (r: u64)
        ensures
            r == self.header().chain_id,
    ;

    /// The account that the fees go to.
    fn coinbase(&self) -> (r: Address)
        ensures
            r == self.header().coinbase,
    ;

    /// The time of the block.
    fn timestamp(&self) -> (r: U256)
        ensures
            r == self.header().timestamp,
    ;

    /// The gas limit of the block.
    fn gas_limit(&self) -> (r: U256)
        ensures
            r == self.header().gas_limit,
    ;

    /// The gas that the block used.
    fn gas_used(&self) -> (r: U256)
        ensures
            r == self.header().gas_used,
    ;

    /// The base fee; none before the fee market.
    fn base_fee_per_gas(&self) -> (r: Option<U256>)
        ensures
            r == self.header().base_fee_per_gas,
    ;

    /// The difficulty.
    fn difficulty(&self) -> (r: U256)
        ensures
            r == self.header().difficulty,
    ;

    /// The randomness of the previous block, where the header has it.
    fn prevrandao(&self) -> (r: Option<B256>)
        ensures
            r == self.header().prevrandao,
    ;

    /// The transaction records, in the order of inclusion.
    fn transactions(&self) -> (r: &Vec<Self::Tx>)
        ensures
            r@ == self.spec_transactions(),
    ;

    /// The number of transaction records.
    fn num_txs(&self) -> (r: usize)
        ensures
            r == self.spec_transactions().len(),
    ;

    /// The state root before the block.
    fn root_before(&self) -> (r: B256)
        ensures
            r == self.header().root_before,
    ;

    /// The state root that the trace claims for after the block.
    fn root_after(&self) -> (r: B256)
        ensures
            r == self.header().root_after,
    ;

    /// The root of the withdraw trie.
    fn withdraw_root(&self) -> (r: B256)
        ensures
            r == self.header().withdraw_root,
    ;

    /// The code blobs of the contracts that the block runs.
    fn codes(&self) -> (r: &Vec<Vec<u8>>)
        ensures
            byte_strings(r@) == self.spec_codes(),
    ;

    /// The queue index of the first message from L1 that the block may include.
    fn start_l1_queue_index(&self) -> (r: u64)
        ensures
            r == self.header().start_l1_queue_index,
    ;

    /// The proof fragments. Their order carries no meaning.
    fn node_proofs(&self) -> (r: &Vec<Vec<u8>>)
        ensures
            byte_strings(r@) == self.spec_node_proofs(),
    ;

    /// The number of L1 queue entries that this block covers: zero without a
    /// message from L1, else the span from the block's first queue index to
    /// the highest one present.
    fn num_l1_txs(&self) -> (r: u64)
        ensures
            r == l1_count(self.spec_transactions(), self.header().start_l1_queue_index),
    {
        count_l1_txs(self.transactions(), self.start_l1_queue_index())
    }

    /// The number of transactions that are not messages from L1.
    fn num_l2_txs(&self) -> (r: u64)
        ensures
            r == l2_count(self.spec_transactions()),
    {
        count_l2_txs(self.transactions())
    }

    /// Feeds the 58 header bytes of the commitment to the hasher.
    fn hash_da_header(&self, hasher: &mut Keccak)
        ensures
            keccak_absorbed(*final(hasher)) == keccak_absorbed(*old(hasher)) + block_da_header(
                self.header(),
                self.spec_transactions(),
            ),
            keccak_bits(*final(hasher)) == keccak_bits(*old(hasher)),
    {
        let num_txs: u64 = self.num_l1_txs().wrapping_add(self.num_l2_txs());
        let timestamp: U256 = self.timestamp();
        let base_fee_per_gas: Option<U256> = self.base_fee_per_gas();
        let gas_limit: U256 = self.gas_limit();
        let bytes = encode_da_header(
            self.number(),
            &timestamp,
            &base_fee_per_gas,
            &gas_limit,
            num_txs,
        );
        proof {
            lemma_pow256_values();
            let l1 = l1_count(self.spec_transactions(), self.header().start_l1_queue_index) as nat;
            let l2 = l2_count(self.spec_transactions());
            if l1 + l2 > u64::MAX {
                vstd::arithmetic::div_mod::lemma_mod_multiples_vanish(
                    -0x1_0000_0000_0000,
                    (l1 + l2) as int,
                    0x1_0000,
                );
            }
            assert((num_txs as nat) % pow256(2) == (l1 + l2) % pow256(2));
        }
        keccak_update(hasher, bytes.as_slice());
    }

    /// Feeds the hash of every message from L1 to the hasher, in the order of
    /// the block.
    fn hash_l1_msg(&self, hasher: &mut Keccak)
        ensures
            keccak_absorbed(*final(hasher)) == keccak_absorbed(*old(hasher)) + l1_msg_hashes(
                self.spec_transactions(),
            ),
            keccak_bits(*final(hasher)) == keccak_bits(*old(hasher)),
    {
        absorb_l1_msg_hashes(self.transactions(), hasher)
    }

    /// Starts the import of this block's proof fragments into a node store:
    /// all of them are still to be handed over.
    fn proof_import(&self) -> (r: ProofImport)
        ensures
            r == ProofImport::spec_at(self.spec_node_proofs().len(), 0, false),
    {
        ProofImport::new(self.node_proofs().len())
    }

    /// The Keccak-256 digest of the 58 header bytes of the commitment.
    fn da_header_digest(&self) -> (r: B256)
        ensures
            r.bytes@ == keccak256(block_da_header(self.header(), self.spec_transactions())),
    {
        let mut hasher = keccak_v256();
        self.hash_da_header(&mut hasher);
        assert(Seq::<u8>::empty() + block_da_header(self.header(), self.spec_transactions())
            == block_da_header(self.header(), self.spec_transactions()));
        B256 { bytes: keccak_finalize(hasher) }
    }

    /// The Keccak-256 digest of the hashes of the messages from L1.
    fn l1_msg_digest(&self) -> (r: B256)
        ensures
            r.bytes@ == keccak256(l1_msg_hashes(self.spec_transactions())),
    {
        let mut hasher = keccak_v256();
        self.hash_l1_msg(&mut hasher);
        assert(Seq::<u8>::empty() + l1_msg_hashes(self.spec_transactions()) == l1_msg_hashes(
            self.spec_transactions(),
        ));
        B256 { bytes: keccak_finalize(hasher) }
    }
}

/// The bytes of a block that the data-availability commitment covers, from
/// its header fields and its transaction records.
pub open spec fn block_da_header<T: TxTrace>(header: BlockHeader, txs: Seq<T>) -> Seq<u8> {
    da_header_bytes(
        header.number,
        header.timestamp@,
        base_fee_value(header.base_fee_per_gas),
        header.gas_limit@,
        l1_count(txs, header.start_l1_queue_index) as nat + l2_count(txs),
    )
}

/// A block trace.
#[derive(Clone, Debug, PartialEq, Eq)]
pub struct BlockTrace {
    pub header: BlockHeader,
    pub transactions: Vec<TransactionTrace>,
    pub codes: Vec<Vec<u8>>,
    pub node_proofs: Vec<Vec<u8>>,
}

impl Block for BlockTrace {
    type Tx = TransactionTrace;

    open spec fn header(&self) -> BlockHeader {
        self.header
    }

    open spec fn spec_transactions(&self) -> Seq<TransactionTrace> {
        self.transactions@
    }

    open spec fn spec_codes(&self) -> Seq<Seq<u8>> {
        byte_strings(self.codes@)
    }

    open spec fn spec_node_proofs(&self) -> Seq<Seq<u8>> {
        byte_strings(self.node_proofs@)
    }

    fn number(&self) -> (r: u64) {
        self.header.number
    }

    fn block_hash(&self) -> (r: B256) {
        self.header.block_hash
    }

    fn chain_id(&self) -> (r: u64) {
        self.header.chain_id
    }

    fn coinbase(&self) -> (r: Address) {
        self.header.coinbase
    }

    fn timestamp(&self) -> (r: U256) {
        self.header.timestamp
    }

    fn gas_limit(&self) -> (r: U256) {
        self.header.gas_limit
    }

    fn gas_used(&self) -> (r: U256) {
        self.header.gas_used
    }

    fn base_fee_per_gas(&self) -> (r: Option<U256>) {
        self.header.base_fee_per_gas
    }

    fn difficulty(&self) -> (r: U256) {
        self.header.difficulty
    }

    fn prevrandao(&self) -> (r: Option<B256>) {
        self.header.prevrandao
    }

    fn transactions(&self) -> (r: &Vec<TransactionTrace>) {
        &self.transactions
    }

    fn num_txs(&self) -> (r: usize) {
        self.transactions.len()
    }

    fn root_before(&self) -> (r: B256) {
        self.header.root_before
    }

    fn root_after(&self) -> (r: B256) {
        self.header.root_after
    }

    fn withdraw_root(&self) -> (r: B256) {
        self.header.withdraw_root
    }

    fn codes(&self) -> (r: &Vec<Vec<u8>>) {
        &self.codes
    }

    fn start_l1_queue_index(&self) -> (r: u64) {
        self.header.start_l1_queue_index
    }

    fn node_proofs(&self) -> (r: &Vec<Vec<u8>>) {
        &self.node_proofs
    }
}

/// The committed bytes depend on five things only: the number, the low 64
/// bits of timestamp and gas limit, the base fee, and the low 16 bits of the
/// transaction count. Two blocks that agree on these commit to the same
/// bytes, and so to the same digest, whatever else differs.
pub proof fn lemma_da_header_deterministic(
    number: u64,
    timestamp_a: nat,
    timestamp_b: nat,
    base_fee: nat,
    gas_limit_a: nat,
    gas_limit_b: nat,
    num_txs_a: nat,
    num_txs_b: nat,
)
    requires
        timestamp_a % pow256(8) == timestamp_b % pow256(8),
        gas_limit_a % pow256(8) == gas_limit_b % pow256(8),
        num_txs_a % pow256(2) == num_txs_b % pow256(2),
    ensures
        da_header_bytes(number, timestamp_a, base_fee, gas_limit_a, num_txs_a) == da_header_bytes(
            number,
            timestamp_b,
            base_fee,
            gas_limit_b,
            num_txs_b,
        ),
        keccak256(da_header_bytes(number, timestamp_a, base_fee, gas_limit_a, num_txs_a))
            == keccak256(da_header_bytes(number, timestamp_b, base_fee, gas_limit_b, num_txs_b)),
{
}

/// A count of transactions and the same count plus 65536 are written alike:
/// the field is two bytes wide.
pub proof fn lemma_da_header_count_wraps(
    number: u64,
    timestamp: nat,
    base_fee: nat,
    gas_limit: nat,
    num_txs: nat,
)
    ensures
        da_header_bytes(number, timestamp, base_fee, gas_limit, num_txs + 65536) == da_header_bytes(
            number,
            timestamp,
            base_fee,
            gas_limit,
            num_txs,
        ),
{
    lemma_pow256_values();
    vstd::arithmetic::div_mod::lemma_mod_multiples_vanish(1, num_txs as int, 65536);
}

/// Committed bytes that are equal come from equal fields: the same number,
/// the same low 64 bits of timestamp and gas limit, the same base fee (for
/// base fees of 256 bits), and the same low 16 bits of the transaction count.
/// So a change of any of these changes the committed bytes.
pub proof fn lemma_da_header_injective(
    number_a: u64,
    timestamp_a: nat,
    base_fee_a: nat,
    gas_limit_a: nat,
    num_txs_a: nat,
    number_b: u64,
    timestamp_b: nat,
    base_fee_b: nat,
    gas_limit_b: nat,
    num_txs_b: nat,
)
    requires
        base_fee_a < pow256(32),
        base_fee_b < pow256(32),
        da_header_bytes(number_a, timestamp_a, base_fee_a, gas_limit_a, num_txs_a)
            == da_header_bytes(number_b, timestamp_b, base_fee_b, gas_limit_b, num_txs_b),
    ensures
        number_a == number_b,
        timestamp_a % pow256(8) == timestamp_b % pow256(8),
        base_fee_a == base_fee_b,
        gas_limit_a % pow256(8) == gas_limit_b % pow256(8),
        num_txs_a % pow256(2) == num_txs_b % pow256(2),
{
    lemma_pow256_values();
    let a = da_header_bytes(number_a, timestamp_a, base_fee_a, gas_limit_a, num_txs_a);
    let b = da_header_bytes(number_b, timestamp_b, base_fee_b, gas_limit_b, num_txs_b);
    let (a0, b0) = (be_bytes(number_a as nat, 8), be_bytes(number_b as nat, 8));
    let (a1, b1) = (be_bytes(timestamp_a % pow256(8), 8), be_bytes(timestamp_b % pow256(8), 8));
    let (a2, b2) = (be_bytes(base_fee_a, 32), be_bytes(base_fee_b, 32));
    let (a3, b3) = (be_bytes(gas_limit_a % pow256(8), 8), be_bytes(gas_limit_b % pow256(8), 8));
    let (a4, b4) = (be_bytes(num_txs_a % pow256(2), 2), be_bytes(num_txs_b % pow256(2), 2));
    lemma_be_bytes_len(number_a as nat, 8);
    lemma_be_bytes_len(number_b as nat, 8);
    lemma_be_bytes_len(timestamp_a % pow256(8), 8);
    lemma_be_bytes_len(timestamp_b % pow256(8), 8);
    lemma_be_bytes_len(base_fee_a, 32);
    lemma_be_bytes_len(base_fee_b, 32);
    lemma_be_bytes_len(gas_limit_a % pow256(8), 8);
    lemma_be_bytes_len(gas_limit_b % pow256(8), 8);
    lemma_be_bytes_len(num_txs_a % pow256(2), 2);
    lemma_be_bytes_len(num_txs_b % pow256(2), 2);
    assert(a0 =~= a.subrange(0, 8));
    assert(b0 =~= b.subrange(0, 8));
    assert(a1 =~= a.subrange(8, 16));
    assert(b1 =~= b.subrange(8, 16));
    assert(a2 =~= a.subrange(16, 48));
    assert(b2 =~= b.subrange(16, 48));
    assert(a3 =~= a.subrange(48, 56));
    assert(b3 =~= b.subrange(48, 56));
    assert(a4 =~= a.subrange(56, 58));
    assert(b4 =~= b.subrange(56, 58));
    lemma_be_bytes_injective(number_a as nat, number_b as nat, 8);
    lemma_be_bytes_injective(timestamp_a % pow256(8), timestamp_b % pow256(8), 8);
    lemma_be_bytes_injective(base_fee_a, base_fee_b, 32);
    lemma_be_bytes_injective(gas_limit_a % pow256(8), gas_limit_b % pow256(8), 8);
    lemma_be_bytes_injective(num_txs_a % pow256(2), num_txs_b % pow256(2), 2);
}

} // verus!
