//! The typed transaction: what a trace record becomes once its one-byte type
//! has been read.

use crate::primitives::{Address, TxKind, B256, U256};
use crate::signature::{Signature, SignatureError};
use vstd::prelude::*;

verus! {

/// The type byte of a legacy transaction.
pub const LEGACY_TX_TYPE: u8 = 0x00;

/// The type byte of a transaction with an access list and a single gas price.
pub const EIP2930_TX_TYPE: u8 = 0x01;

/// The type byte of a transaction with a fee cap and a priority fee.
pub const EIP1559_TX_TYPE: u8 = 0x02;

/// The type byte of a message that came through the L1 queue.
pub const L1_MSG_TX_TYPE: u8 = 0x7e;

/// One entry of an access list: an account and the storage slots of it that
/// the transaction declares.
#[derive(Clone, Debug, PartialEq, Eq)]
pub struct AccessListItem {
    pub address: Address,
    pub storage_keys: Vec<B256>,
}

/// An access list entry as a mathematical value.
pub struct AccessListItemView {
    pub address: Address,
    pub storage_keys: Seq<B256>,
}

impl View for AccessListItem {
    type V = AccessListItemView;

    open spec fn view(&self) -> AccessListItemView {
        AccessListItemView { address: self.address, storage_keys: self.storage_keys@ }
    }
}

/// An access list as a mathematical value.
pub open spec fn access_list_view(list: Seq<AccessListItem>) -> Seq<AccessListItemView> {
    Seq::new(list.len(), |i: int| list[i]@)
}

/// A legacy transaction. It may carry no chain id.
#[derive(Clone, Debug, PartialEq, Eq)]
pub struct TxLegacy {
    pub chain_id: Option<u64>,
    pub nonce: u64,
    pub gas_price: u128,
    pub gas_limit: u64,
    pub to: TxKind,
    pub value: U256,
    pub input: Vec<u8>,
}

/// A transaction with an access list and a single gas price.
#[derive(Clone, Debug, PartialEq, Eq)]
pub struct TxEip2930 {
    pub chain_id: u64,
    pub nonce: u64,
    pub gas_price: u128,
    pub gas_limit: u64,
    pub to: TxKind,
    pub value: U256,
    pub access_list: Vec<AccessListItem>,
    pub input: Vec<u8>,
}

/// A transaction with an access list, a fee cap and a priority fee.
#[derive(Clone, Debug, PartialEq, Eq)]
pub struct TxEip1559 {
    pub chain_id: u64,
    pub nonce: u64,
    pub gas_limit: u64,
    pub max_fee_per_gas: u128,
    pub max_priority_fee_per_gas: u128,
    pub to: TxKind,
    pub value: U256,
    pub access_list: Vec<AccessListItem>,
    pub input: Vec<u8>,
}

/// A message from L1. It is not signed: its sender is stated by the trace, and
/// its nonce is its place in the one queue that all such messages share.
#[derive(Clone, Debug, PartialEq, Eq)]
pub struct TxL1Msg {
    pub tx_hash: B256,
    pub from: Address,
    pub nonce: u64,
    pub gas_limit: u64,
    pub to: TxKind,
    pub value: U256,
    pub input: Vec<u8>,
}

/// A signed transaction of one of the three signed kinds.
#[derive(Clone, Debug, PartialEq, Eq)]
pub enum TxEnvelope {
    Legacy(TxLegacy, Signature),
    Eip2930(TxEip2930, Signature),
    Eip1559(TxEip1559, Signature),
}

/// A transaction, whatever its wire encoding was.
#[derive(Clone, Debug, PartialEq, Eq)]
pub enum TypedTransaction {
    Enveloped(TxEnvelope),
    L1Msg(TxL1Msg),
}

/// Why a record gives no typed transaction.
#[derive(Clone, Copy, Debug, PartialEq, Eq)]
pub enum TxBuildError {
    /// The type byte is none of the four known ones.
    UnsupportedTransactionType(u8),
    /// The record's type needs a chain id and the record has none.
    MissingChainId,
    /// The signature fields are no signature.
    SignatureError(SignatureError),
}

/// A typed transaction as a mathematical value.
#[allow(inconsistent_fields)]
pub enum TypedTxView {
    Legacy {
        chain_id: Option<u64>,
        nonce: u64,
        gas_price: u128,
        gas_limit: u64,
        to: TxKind,
        value: U256,
        input: Seq<u8>,
        signature: Signature,
    },
    Eip2930 {
        chain_id: u64,
        nonce: u64,
        gas_price: u128,
        gas_limit: u64,
        to: TxKind,
        value: U256,
        access_list: Seq<AccessListItemView>,
        input: Seq<u8>,
        signature: Signature,
    },
    Eip1559 {
        chain_id: u64,
        nonce: u64,
        gas_limit: u64,
        max_fee_per_gas: u128,
        max_priority_fee_per_gas: u128,
        to: TxKind,
        value: U256,
        access_list: Seq<AccessListItemView>,
        input: Seq<u8>,
        signature: Signature,
    },
    L1Msg {
        tx_hash: B256,
        from: Address,
        nonce: u64,
        gas_limit: u64,
        to: TxKind,
        value: U256,
        input: Seq<u8>,
    },
}

impl TypedTxView {
    /// The type byte that this transaction is written with.
    pub open spec fn ty(self) -> u8 {
        match self {
            TypedTxView::Legacy { .. } => LEGACY_TX_TYPE,
            TypedTxView::Eip2930 { .. } => EIP2930_TX_TYPE,
            TypedTxView::Eip1559 { .. } => EIP1559_TX_TYPE,
            TypedTxView::L1Msg { .. } => L1_MSG_TX_TYPE,
        }
    }

    /// The nonce; for a message from L1, its place in the queue.
    pub open spec fn nonce(self) -> u64 {
        match self {
            TypedTxView::Legacy { nonce, .. } => nonce,
            TypedTxView::Eip2930 { nonce, .. } => nonce,
            TypedTxView::Eip1559 { nonce, .. } => nonce,
            TypedTxView::L1Msg { nonce, .. } => nonce,
        }
    }

    /// The gas limit.
    pub open spec fn gas_limit(self) -> u64 {
        match self {
            TypedTxView::Legacy { gas_limit, .. } => gas_limit,
            TypedTxView::Eip2930 { gas_limit, .. } => gas_limit,
            TypedTxView::Eip1559 { gas_limit, .. } => gas_limit,
            TypedTxView::L1Msg { gas_limit, .. } => gas_limit,
        }
    }

    /// Where the transaction is sent.
    pub open spec fn to(self) -> TxKind {
        match self {
            TypedTxView::Legacy { to, .. } => to,
            TypedTxView::Eip2930 { to, .. } => to,
            TypedTxView::Eip1559 { to, .. } => to,
            TypedTxView::L1Msg { to, .. } => to,
        }
    }

    /// The value sent.
    pub open spec fn value(self) -> U256 {
        match self {
            TypedTxView::Legacy { value, .. } => value,
            TypedTxView::Eip2930 { value, .. } => value,
            TypedTxView::Eip1559 { value, .. } => value,
            TypedTxView::L1Msg { value, .. } => value,
        }
    }

    /// The input data.
    pub open spec fn input(self) -> Seq<u8> {
        match self {
            TypedTxView::Legacy { input, .. } => input,
            TypedTxView::Eip2930 { input, .. } => input,
            TypedTxView::Eip1559 { input, .. } => input,
            TypedTxView::L1Msg { input, .. } => input,
        }
    }

    /// The most that the sender pays for a unit of gas: the gas price where
    /// there is one, the fee cap where there is that, nothing for a message
    /// from L1.
    pub open spec fn max_fee_per_gas(self) -> u128 {
        match self {
            TypedTxView::Legacy { gas_price, .. } => gas_price,
            TypedTxView::Eip2930 { gas_price, .. } => gas_price,
            TypedTxView::Eip1559 { max_fee_per_gas, .. } => max_fee_per_gas,
            TypedTxView::L1Msg { .. } => 0,
        }
    }

    /// The priority fee, for the one kind that states it.
    pub open spec fn max_priority_fee_per_gas(self) -> Option<u128> {
        match self {
            TypedTxView::Eip1559 { max_priority_fee_per_gas, .. } => Some(max_priority_fee_per_gas),
            _ => None,
        }
    }

    /// The signature, for the signed kinds.
    pub open spec fn signature(self) -> Option<Signature> {
        match self {
            TypedTxView::Legacy { signature, .. } => Some(signature),
            TypedTxView::Eip2930 { signature, .. } => Some(signature),
            TypedTxView::Eip1559 { signature, .. } => Some(signature),
            TypedTxView::L1Msg { .. } => None,
        }
    }

    /// The chain that the transaction is bound to, where it states one.
    pub open spec fn chain_id(self) -> Option<u64> {
        match self {
            TypedTxView::Legacy { chain_id, .. } => chain_id,
            TypedTxView::Eip2930 { chain_id, .. } => Some(chain_id),
            TypedTxView::Eip1559 { chain_id, .. } => Some(chain_id),
            TypedTxView::L1Msg { .. } => None,
        }
    }
}

impl View for TxEnvelope {
    type V = TypedTxView;

    open spec fn view(&self) -> TypedTxView {
        match *self {
            TxEnvelope::Legacy(tx, signature) => TypedTxView::Legacy {
                chain_id: tx.chain_id,
                nonce: tx.nonce,
                gas_price: tx.gas_price,
                gas_limit: tx.gas_limit,
                to: tx.to,
                value: tx.value,
                input: tx.input@,
                signature,
            },
            TxEnvelope::Eip2930(tx, signature) => TypedTxView::Eip2930 {
                chain_id: tx.chain_id,
                nonce: tx.nonce,
                gas_price: tx.gas_price,
                gas_limit: tx.gas_limit,
                to: tx.to,
                value: tx.value,
                access_list: access_list_view(tx.access_list@),
                input: tx.input@,
                signature,
            },
            TxEnvelope::Eip1559(tx, signature) => TypedTxView::Eip1559 {
                chain_id: tx.chain_id,
                nonce: tx.nonce,
                gas_limit: tx.gas_limit,
                max_fee_per_gas: tx.max_fee_per_gas,
                max_priority_fee_per_gas: tx.max_priority_fee_per_gas,
                to: tx.to,
                value: tx.value,
                access_list: access_list_view(tx.access_list@),
                input: tx.input@,
                signature,
            },
        }
    }
}

impl View for TxL1Msg {
    type V = TypedTxView;

    open spec fn view(&self) -> TypedTxView {
        TypedTxView::L1Msg {
            tx_hash: self.tx_hash,
            from: self.from,
            nonce: self.nonce,
            gas_limit: self.gas_limit,
            to: self.to,
            value: self.value,
            input: self.input@,
        }
    }
}

impl View for TypedTransaction {
    type V = TypedTxView;

    open spec fn view(&self) -> TypedTxView {
        match *self {
            TypedTransaction::Enveloped(envelope) => envelope@,
            TypedTransaction::L1Msg(msg) => msg@,
        }
    }
}

impl TypedTransaction {
    /// The type byte that this transaction is written with.
    pub fn ty(&self) -> (r: u8)
        ensures
            r == self@.ty(),
    {
        match self {
            TypedTransaction::Enveloped(TxEnvelope::Legacy(_, _)) => LEGACY_TX_TYPE,
            TypedTransaction::Enveloped(TxEnvelope::Eip2930(_, _)) => EIP2930_TX_TYPE,
            TypedTransaction::Enveloped(TxEnvelope::Eip1559(_, _)) => EIP1559_TX_TYPE,
            TypedTransaction::L1Msg(_) => L1_MSG_TX_TYPE,
        }
    }

    /// Whether this is a message from L1.
    pub fn is_l1_msg(&self) -> (r: bool)
        ensures
            r == (self@ is L1Msg),
            r == (self@.ty() == L1_MSG_TX_TYPE),
    {
        match self {
            TypedTransaction::Enveloped(_) => false,
            TypedTransaction::L1Msg(_) => true,
        }
    }

    /// The nonce; for a message from L1, its place in the queue.
    pub fn nonce(&self) -> (r: u64)
        ensures
            r == self@.nonce(),
    {
        match self {
            TypedTransaction::Enveloped(TxEnvelope::Legacy(tx, _)) => tx.nonce,
            TypedTransaction::Enveloped(TxEnvelope::Eip2930(tx, _)) => tx.nonce,
            TypedTransaction::Enveloped(TxEnvelope::Eip1559(tx, _)) => tx.nonce,
            TypedTransaction::L1Msg(msg) => msg.nonce,
        }
    }

    /// The gas limit.
    pub fn gas_limit(&self) -> (r: u64)
        ensures
            r == self@.gas_limit(),
    {
        match self {
            TypedTransaction::Enveloped(TxEnvelope::Legacy(tx, _)) => tx.gas_limit,
            TypedTransaction::Enveloped(TxEnvelope::Eip2930(tx, _)) => tx.gas_limit,
            TypedTransaction::Enveloped(TxEnvelope::Eip1559(tx, _)) => tx.gas_limit,
            TypedTransaction::L1Msg(msg) => msg.gas_limit,
        }
    }

    /// Where the transaction is sent.
    pub fn to(&self) -> (r: TxKind)
        ensures
            r == self@.to(),
    {
        match self {
            TypedTransaction::Enveloped(TxEnvelope::Legacy(tx, _)) => tx.to,
            TypedTransaction::Enveloped(TxEnvelope::Eip2930(tx, _)) => tx.to,
            TypedTransaction::Enveloped(TxEnvelope::Eip1559(tx, _)) => tx.to,
            TypedTransaction::L1Msg(msg) => msg.to,
        }
    }

    /// The value sent.
    pub fn value(&self) -> (r: U256)
        ensures
            r == self@.value(),
    {
        match self {
            TypedTransaction::Enveloped(TxEnvelope::Legacy(tx, _)) => tx.value,
            TypedTransaction::Enveloped(TxEnvelope::Eip2930(tx, _)) => tx.value,
            TypedTransaction::Enveloped(TxEnvelope::Eip1559(tx, _)) => tx.value,
            TypedTransaction::L1Msg(msg) => msg.value,
        }
    }

    /// The input data.
    pub fn input(&self) -> (r: &Vec<u8>)
        ensures
            r@ == self@.input(),
    {
        match self {
            TypedTransaction::Enveloped(TxEnvelope::Legacy(tx, _)) => &tx.input,
            TypedTransaction::Enveloped(TxEnvelope::Eip2930(tx, _)) => &tx.input,
            TypedTransaction::Enveloped(TxEnvelope::Eip1559(tx, _)) => &tx.input,
            TypedTransaction::L1Msg(msg) => &msg.input,
        }
    }

    /// The most that the sender pays for a unit of gas.
    pub fn max_fee_per_gas(&self) -> (r: u128)
        ensures
            r == self@.max_fee_per_gas(),
    {
        match self {
            TypedTransaction::Enveloped(TxEnvelope::Legacy(tx, _)) => tx.gas_price,
            TypedTransaction::Enveloped(TxEnvelope::Eip2930(tx, _)) => tx.gas_price,
            TypedTransaction::Enveloped(TxEnvelope::Eip1559(tx, _)) => tx.max_fee_per_gas,
            TypedTransaction::L1Msg(_) => 0,
        }
    }

    /// The priority fee, for the one kind that states it.
    pub fn max_priority_fee_per_gas(&self) -> (r: Option<u128>)
        ensures
            r == self@.max_priority_fee_per_gas(),
    {
        match self {
            TypedTransaction::Enveloped(TxEnvelope::Eip1559(tx, _)) => Some(
                tx.max_priority_fee_per_gas,
            ),
            _ => None,
        }
    }

    /// The signature, for the signed kinds.
    pub fn signature(&self) -> (r: Option<Signature>)
        ensures
            r == self@.signature(),
    {
        match self {
            TypedTransaction::Enveloped(TxEnvelope::Legacy(_, signature)) => Some(*signature),
            TypedTransaction::Enveloped(TxEnvelope::Eip2930(_, signature)) => Some(*signature),
            TypedTransaction::Enveloped(TxEnvelope::Eip1559(_, signature)) => Some(*signature),
            TypedTransaction::L1Msg(_) => None,
        }
    }

    /// The chain that the transaction is bound to, where it states one.
    pub fn chain_id(&self) -> (r: Option<u64>)
        ensures
            r == self@.chain_id(),
    {
        match self {
            TypedTransaction::Enveloped(TxEnvelope::Legacy(tx, _)) => tx.chain_id,
            TypedTransaction::Enveloped(TxEnvelope::Eip2930(tx, _)) => Some(tx.chain_id),
            TypedTransaction::Enveloped(TxEnvelope::Eip1559(tx, _)) => Some(tx.chain_id),
            TypedTransaction::L1Msg(_) => None,
        }
    }
}

/// A copy of an access list.
pub fn copy_access_list(list: &Vec<AccessListItem>) -> (r: Vec<AccessListItem>)
    ensures
        access_list_view(r@) == access_list_view(list@),
{
    let mut r: Vec<AccessListItem> = Vec::new();
    let mut i: usize = 0;
    while i < list.len()
        invariant
            i <= list.len(),
            r.len() == i,
            forall|j: int| 0 <= j < i ==> r[j]@ == list[j]@,
        decreases list.len() - i,
    {
        let item = &list[i];
        let mut keys: Vec<B256> = Vec::new();
        let mut k: usize = 0;
        while k < item.storage_keys.len()
            invariant
                k <= item.storage_keys.len(),
                keys@ == item.storage_keys@.take(k as int),
            decreases item.storage_keys.len() - k,
        {
            keys.push(item.storage_keys[k]);
            assert(item.storage_keys@.take(k + 1) == item.storage_keys@.take(k as int).push(
                item.storage_keys@[k as int],
            ));
            k = k + 1;
        }
        assert(item.storage_keys@.take(k as int) == item.storage_keys@);
        r.push(AccessListItem { address: item.address, storage_keys: keys });
        i = i + 1;
    }
    assert(access_list_view(r@) =~= access_list_view(list@));
    r
}

} // verus!
