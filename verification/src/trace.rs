//! Transaction records of a trace, and how a typed transaction is rebuilt
//! from one.
//!
//! A record is untrusted. Its one-byte type alone decides which of the four
//! transaction kinds it is rebuilt as, and whether its sender field is read at
//! all.

use crate::bytes::copy_bytes;
use crate::primitives::{Address, TxKind, B256, U256};
use crate::signature::{decode_signature, signature_of, Signature, SignatureError};
use crate::transaction::{
    access_list_view, copy_access_list, AccessListItem, AccessListItemView,
    TxBuildError, TxEip1559, TxEip2930, TxEnvelope, TxL1Msg, TxLegacy, TypedTransaction,
    TypedTxView, EIP1559_TX_TYPE, EIP2930_TX_TYPE, L1_MSG_TX_TYPE, LEGACY_TX_TYPE,
};
use vstd::prelude::*;

verus! {

/// What a record's type byte says it is. Only a message from L1 carries a
/// sender: for the signed kinds the sender follows from the signature, and the
/// record's own sender field is never read.
#[derive(Clone, Copy, Debug, PartialEq, Eq)]
pub enum TxClass {
    Legacy,
    AccessList,
    DynamicFee,
    L1Message { from: Address },
    Unsupported(u8),
}

/// The fields of a transaction record, as a mathematical value.
pub struct TxRecord {
    pub tx_hash: B256,
    pub ty: u8,
    pub nonce: u64,
    pub gas_limit: u64,
    pub gas_price: u128,
    pub max_fee_per_gas: u128,
    pub max_priority_fee_per_gas: u128,
    /// The sender that the record states. It counts for a message from L1 only.
    pub from: Address,
    pub to: TxKind,
    pub chain_id: Option<u64>,
    pub value: U256,
    pub data: Seq<u8>,
    pub access_list: Seq<AccessListItemView>,
    pub v: u64,
    /// What decoding the record's signature fields gives.
    pub signature: Result<Signature, SignatureError>,
}

/// The class of a record with type byte `ty` that states the sender `from`.
pub open spec fn class_of(ty: u8, from: Address) -> TxClass {
    if ty == LEGACY_TX_TYPE {
        TxClass::Legacy
    } else if ty == EIP2930_TX_TYPE {
        TxClass::AccessList
    } else if ty == EIP1559_TX_TYPE {
        TxClass::DynamicFee
    } else if ty == L1_MSG_TX_TYPE {
        TxClass::L1Message { from }
    } else {
        TxClass::Unsupported(ty)
    }
}

/// Whether `ty` is one of the four type bytes that can be rebuilt.
pub open spec fn is_supported_type(ty: u8) -> bool {
    ty == LEGACY_TX_TYPE || ty == EIP2930_TX_TYPE || ty == EIP1559_TX_TYPE || ty == L1_MSG_TX_TYPE
}

/// The typed transaction that a record stands for, or why it stands for none.
///
/// The type byte selects the kind. A legacy record may lack a chain id; the
/// two other signed kinds may not, and that is looked at before the
/// signature. A message from L1 takes neither chain id nor signature, and it
/// is the only kind that takes the record's sender. Any other type byte is an
/// error.
pub open spec fn typed_tx_of(rec: TxRecord) -> Result<TypedTxView, TxBuildError> {
    if rec.ty == LEGACY_TX_TYPE {
        match rec.signature {
            Ok(signature) => Ok(
                TypedTxView::Legacy {
                    chain_id: rec.chain_id,
                    nonce: rec.nonce,
                    gas_price: rec.gas_price,
                    gas_limit: rec.gas_limit,
                    to: rec.to,
                    value: rec.value,
                    input: rec.data,
                    signature,
                },
            ),
            Err(e) => Err(TxBuildError::SignatureError(e)),
        }
    } else if rec.ty == EIP2930_TX_TYPE {
        match (rec.chain_id, rec.signature) {
            (None, _) => Err(TxBuildError::MissingChainId),
            (Some(_), Err(e)) => Err(TxBuildError::SignatureError(e)),
            (Some(chain_id), Ok(signature)) => Ok(
                TypedTxView::Eip2930 {
                    chain_id,
                    nonce: rec.nonce,
                    gas_price: rec.gas_price,
                    gas_limit: rec.gas_limit,
                    to: rec.to,
                    value: rec.value,
                    access_list: rec.access_list,
                    input: rec.data,
                    signature,
                },
            ),
        }
    } else if rec.ty == EIP1559_TX_TYPE {
        match (rec.chain_id, rec.signature) {
            (None, _) => Err(TxBuildError::MissingChainId),
            (Some(_), Err(e)) => Err(TxBuildError::SignatureError(e)),
            (Some(chain_id), Ok(signature)) => Ok(
                TypedTxView::Eip1559 {
                    chain_id,
                    nonce: rec.nonce,
                    gas_limit: rec.gas_limit,
                    max_fee_per_gas: rec.max_fee_per_gas,
                    max_priority_fee_per_gas: rec.max_priority_fee_per_gas,
                    to: rec.to,
                    value: rec.value,
                    access_list: rec.access_list,
                    input: rec.data,
                    signature,
                },
            ),
        }
    } else if rec.ty == L1_MSG_TX_TYPE {
        Ok(
            TypedTxView::L1Msg {
                tx_hash: rec.tx_hash,
                from: rec.from,
                nonce: rec.nonce,
                gas_limit: rec.gas_limit,
                to: rec.to,
                value: rec.value,
                input: rec.data,
            },
        )
    } else {
        Err(TxBuildError::UnsupportedTransactionType(rec.ty))
    }
}

/// What every kind of transaction record offers.
///
/// `record` names the fields that the other methods hand out, so that what is
/// built from a record can be stated over them. An implementation decides
/// what its fields are; nothing here says that a signature decodes.
pub trait TxTrace {
    /// The fields of this record.
    spec fn record(&self) -> TxRecord;

    /// The hash of the transaction.
    fn tx_hash(&self) -> (r: B256)
        ensures
            r == self.record().tx_hash,
    ;

    /// The type byte.
    fn ty(&self) -> (r: u8)
        ensures
            r == self.record().ty,
    ;

    /// The nonce; for a message from L1, its place in the queue.
    fn nonce(&self) -> (r: u64)
        ensures
            r == self.record().nonce,
    ;

    /// The gas limit.
    fn gas_limit(&self) -> (r: u64)
        ensures
            r == self.record().gas_limit,
    ;

    /// The gas price, for the kinds that have one price.
    fn gas_price(&self) -> (r: u128)
        ensures
            r == self.record().gas_price,
    ;

    /// The fee cap, for the kind that has one.
    fn max_fee_per_gas(&self) -> (r: u128)
        ensures
            r == self.record().max_fee_per_gas,
    ;

    /// The priority fee, for the kind that has one.
    fn max_priority_fee_per_gas(&self) -> (r: u128)
        ensures
            r == self.record().max_priority_fee_per_gas,
    ;

    /// What the type byte says this record is, with the sender where the
    /// record is a message from L1. This is the only way to a record's sender.
    fn classify(&self) -> (r: TxClass)
        ensures
            r == class_of(self.record().ty, self.record().from),
    ;

    /// Where the transaction is sent.
    fn to(&self) -> (r: TxKind)
        ensures
            r == self.record().to,
    ;

    /// The chain id, where the record has one.
    fn chain_id(&self) -> (r: Option<u64>)
        ensures
            r == self.record().chain_id,
    ;

    /// The value sent.
    fn value(&self) -> (r: U256)
        ensures
            r == self.record().value,
    ;

    /// The input data.
    fn data(&self) -> (r: Vec<u8>)
        ensures
            r@ == self.record().data,
    ;

    /// The access list.
    fn access_list(&self) -> (r: Vec<AccessListItem>)
        ensures
            access_list_view(r@) == self.record().access_list,
    ;

    /// The recovery value of the signature, as written.
    fn v(&self) -> (r: u64)
        ensures
            r == self.record().v,
    ;

    /// Decodes the signature fields.
    fn signature(&self) -> (r: Result<Signature, SignatureError>)
        ensures
            r == self.record().signature,
    ;

    /// Whether the record is a message from L1: whether its type byte is
    /// `0x7e`.
    fn is_l1_tx(&self) -> (r: bool)
        ensures
            r == (self.record().ty == L1_MSG_TX_TYPE),
    {
        self.ty() == L1_MSG_TX_TYPE
    }

    /// Rebuilds the typed transaction that the record stands for.
    fn try_build_typed_tx(&self) -> (r: Result<TypedTransaction, TxBuildError>)
        ensures
            match r {
                Ok(tx) => typed_tx_of(self.record()) == Ok::<TypedTxView, TxBuildError>(tx@),
                Err(e) => typed_tx_of(self.record()) == Err::<TypedTxView, TxBuildError>(e),
            },
    {
        match self.classify() {
            TxClass::Legacy => {
                let signature = match self.signature() {
                    Ok(signature) => signature,
                    Err(e) => {
                        return Err(TxBuildError::SignatureError(e));
                    },
                };
                let tx = TxLegacy {
                    chain_id: self.chain_id(),
                    nonce: self.nonce(),
                    gas_price: self.gas_price(),
                    gas_limit: self.gas_limit(),
                    to: self.to(),
                    value: self.value(),
                    input: self.data(),
                };
                Ok(TypedTransaction::Enveloped(TxEnvelope::Legacy(tx, signature)))
            },
            TxClass::AccessList => {
                let chain_id = match self.chain_id() {
                    Some(chain_id) => chain_id,
                    None => {
                        return Err(TxBuildError::MissingChainId);
                    },
                };
                let signature = match self.signature() {
                    Ok(signature) => signature,
                    Err(e) => {
                        return Err(TxBuildError::SignatureError(e));
                    },
                };
                let tx = TxEip2930 {
                    chain_id,
                    nonce: self.nonce(),
                    gas_price: self.gas_price(),
                    gas_limit: self.gas_limit(),
                    to: self.to(),
                    value: self.value(),
                    access_list: self.access_list(),
                    input: self.data(),
                };
                Ok(TypedTransaction::Enveloped(TxEnvelope::Eip2930(tx, signature)))
            },
            TxClass::DynamicFee => {
                let chain_id = match self.chain_id() {
                    Some(chain_id) => chain_id,
                    None => {
                        return Err(TxBuildError::MissingChainId);
                    },
                };
                let signature = match self.signature() {
                    Ok(signature) => signature,
                    Err(e) => {
                        return Err(TxBuildError::SignatureError(e));
                    },
                };
                let tx = TxEip1559 {
                    chain_id,
                    nonce: self.nonce(),
                    gas_limit: self.gas_limit(),
                    max_fee_per_gas: self.max_fee_per_gas(),
                    max_priority_fee_per_gas: self.max_priority_fee_per_gas(),
                    to: self.to(),
                    value: self.value(),
                    access_list: self.access_list(),
                    input: self.data(),
                };
                Ok(TypedTransaction::Enveloped(TxEnvelope::Eip1559(tx, signature)))
            },
            TxClass::L1Message { from } => {
                let tx = TxL1Msg {
                    tx_hash: self.tx_hash(),
                    from,
                    nonce: self.nonce(),
                    gas_limit: self.gas_limit(),
                    to: self.to(),
                    value: self.value(),
                    input: self.data(),
                };
                Ok(TypedTransaction::L1Msg(tx))
            },
            TxClass::Unsupported(ty) => Err(TxBuildError::UnsupportedTransactionType(ty)),
        }
    }
}

/// A record is rebuilt exactly when its type byte is known, its chain id is
/// there where the kind needs one, and, for the signed kinds, its signature
/// decodes.
pub proof fn lemma_typed_tx_success(rec: TxRecord)
    ensures
        typed_tx_of(rec) is Ok <==> (rec.ty == L1_MSG_TX_TYPE || (rec.ty == LEGACY_TX_TYPE
            && rec.signature is Ok) || ((rec.ty == EIP2930_TX_TYPE || rec.ty == EIP1559_TX_TYPE)
            && rec.chain_id is Some && rec.signature is Ok)),
{
}

/// A rebuilt transaction has the type, nonce, gas limit, destination, value
/// and input of the record it came from; a signed one has its signature and,
/// of its fee fields, those of its kind.
pub proof fn lemma_typed_tx_keeps_fields(rec: TxRecord)
    requires
        typed_tx_of(rec) is Ok,
    ensures
        ({
            let tx = typed_tx_of(rec)->Ok_0;
            &&& tx.ty() == rec.ty
            &&& tx.nonce() == rec.nonce
            &&& tx.gas_limit() == rec.gas_limit
            &&& tx.to() == rec.to
            &&& tx.value() == rec.value
            &&& tx.input() == rec.data
            &&& rec.ty != L1_MSG_TX_TYPE ==> rec.signature == Ok::<Signature, SignatureError>(
                tx.signature()->Some_0,
            )
            &&& rec.ty == LEGACY_TX_TYPE || rec.ty == EIP2930_TX_TYPE ==> tx.max_fee_per_gas()
                == rec.gas_price
            &&& rec.ty == EIP1559_TX_TYPE ==> tx.max_fee_per_gas() == rec.max_fee_per_gas
                && tx.max_priority_fee_per_gas() == Some(rec.max_priority_fee_per_gas)
        }),
{
}

/// A legacy record without a chain id is rebuilt whenever its signature
/// decodes, and keeps having none. A record of one of the two other signed
/// kinds without a chain id is refused for that, whatever its signature.
pub proof fn lemma_chain_id_rule(rec: TxRecord)
    requires
        rec.chain_id is None,
    ensures
        rec.ty == LEGACY_TX_TYPE && rec.signature is Ok ==> typed_tx_of(rec) is Ok && typed_tx_of(
            rec,
        )->Ok_0.chain_id() is None,
        rec.ty == EIP2930_TX_TYPE || rec.ty == EIP1559_TX_TYPE ==> typed_tx_of(rec) == Err::<
            TypedTxView,
            TxBuildError,
        >(TxBuildError::MissingChainId),
{
}

/// A record whose type byte is none of the four known ones is refused with
/// that byte, whatever its other fields hold.
pub proof fn lemma_unsupported_type(rec: TxRecord)
    requires
        !is_supported_type(rec.ty),
    ensures
        typed_tx_of(rec) == Err::<TypedTxView, TxBuildError>(
            TxBuildError::UnsupportedTransactionType(rec.ty),
        ),
{
}

/// A message from L1 is rebuilt with the sender and the hash that the record
/// states; no other kind takes either.
pub proof fn lemma_l1_msg_sender(rec: TxRecord)
    ensures
        rec.ty == L1_MSG_TX_TYPE ==> (typed_tx_of(rec) matches Ok(
            TypedTxView::L1Msg { from, tx_hash, .. },
        ) && from == rec.from && tx_hash == rec.tx_hash),
        (typed_tx_of(rec) matches Ok(tx) && tx is L1Msg) ==> rec.ty == L1_MSG_TX_TYPE,
{
}

/// A transaction record as it stands in a trace.
#[derive(Clone, Debug, PartialEq, Eq)]
pub struct TransactionTrace {
    pub tx_hash: B256,
    pub ty: u8,
    pub nonce: u64,
    pub gas_limit: u64,
    pub gas_price: u128,
    pub max_fee_per_gas: u128,
    pub max_priority_fee_per_gas: u128,
    /// The sender that the trace states. It is taken on trust for a message
    /// from L1 and not read for any other kind.
    pub from: Address,
    pub to: TxKind,
    pub chain_id: Option<u64>,
    pub value: U256,
    pub data: Vec<u8>,
    pub access_list: Vec<AccessListItem>,
    pub v: u64,
    pub r: U256,
    pub s: U256,
}

impl TxTrace for TransactionTrace {
    open spec fn record(&self) -> TxRecord {
        TxRecord {
            tx_hash: self.tx_hash,
            ty: self.ty,
            nonce: self.nonce,
            gas_limit: self.gas_limit,
            gas_price: self.gas_price,
            max_fee_per_gas: self.max_fee_per_gas,
            max_priority_fee_per_gas: self.max_priority_fee_per_gas,
            from: self.from,
            to: self.to,
            chain_id: self.chain_id,
            value: self.value,
            data: self.data@,
            access_list: access_list_view(self.access_list@),
            v: self.v,
            signature: signature_of(self.r, self.s, self.v),
        }
    }

    fn tx_hash(&self) -> (r: B256) {
        self.tx_hash
    }

    fn ty(&self) -> (r: u8) {
        self.ty
    }

    fn nonce(&self) -> (r: u64) {
        self.nonce
    }

    fn gas_limit(&self) -> (r: u64) {
        self.gas_limit
    }

    fn gas_price(&self) -> (r: u128) {
        self.gas_price
    }

    fn max_fee_per_gas(&self) -> (r: u128) {
        self.max_fee_per_gas
    }

    fn max_priority_fee_per_gas(&self) -> (r: u128) {
        self.max_priority_fee_per_gas
    }

    fn classify(&self) -> (r: TxClass) {
        if self.ty == LEGACY_TX_TYPE {
            TxClass::Legacy
        } else if self.ty == EIP2930_TX_TYPE {
            TxClass::AccessList
        } else if self.ty == EIP1559_TX_TYPE {
            TxClass::DynamicFee
        } else if self.ty == L1_MSG_TX_TYPE {
            TxClass::L1Message { from: self.from }
        } else {
            TxClass::Unsupported(self.ty)
        }
    }

    fn to(&self) -> (r: TxKind) {
        self.to
    }

    fn chain_id(&self) -> (r: Option<u64>) {
        self.chain_id
    }

    fn value(&self) -> (r: U256) {
        self.value
    }

    fn data(&self) -> (r: Vec<u8>) {
        copy_bytes(&self.data)
    }

    fn access_list(&self) -> (r: Vec<AccessListItem>) {
        copy_access_list(&self.access_list)
    }

    fn v(&self) -> (r: u64) {
        self.v
    }

    fn signature(&self) -> (r: Result<Signature, SignatureError>) {
        decode_signature(self.r, self.s, self.v)
    }
}

} // verus!
