use sbv_primitives::primitives::{Address, TxKind, B256, U256};
use sbv_primitives::signature::{Signature, SignatureError};
use sbv_primitives::trace::{TransactionTrace, TxClass, TxTrace};
use sbv_primitives::transaction::{
    AccessListItem, TxBuildError, TxEip1559, TxEip2930, TxEnvelope, TxL1Msg, TxLegacy,
    TypedTransaction,
};

fn sample_record(ty: u8) -> TransactionTrace {
    TransactionTrace {
        tx_hash: B256 { bytes: [0xaa; 32] },
        ty,
        nonce: 17,
        gas_limit: 21_000,
        gas_price: 1_000_000_007,
        max_fee_per_gas: 2_000_000_000,
        max_priority_fee_per_gas: 3,
        from: Address { bytes: [0x11; 20] },
        to: TxKind::Call(Address { bytes: [0x22; 20] }),
        chain_id: Some(534352),
        value: U256 { limbs: [5, 6, 0, 0] },
        data: vec![0xde, 0xad, 0xbe, 0xef],
        access_list: vec![AccessListItem {
            address: Address { bytes: [0x33; 20] },
            storage_keys: vec![B256 { bytes: [1; 32] }, B256 { bytes: [2; 32] }],
        }],
        v: 1,
        r: U256::from_u64(1234),
        s: U256::from_u64(5678),
    }
}

fn sample_signature() -> Signature {
    Signature { r: U256::from_u64(1234), s: U256::from_u64(5678), y_parity: true }
}

#[test]
fn legacy_record_is_rebuilt_with_its_fields() {
    let rec = sample_record(0x00);
    let tx = rec.try_build_typed_tx().unwrap();
    let expected = TypedTransaction::Enveloped(TxEnvelope::Legacy(
        TxLegacy {
            chain_id: Some(534352),
            nonce: 17,
            gas_price: 1_000_000_007,
            gas_limit: 21_000,
            to: rec.to,
            value: rec.value,
            input: rec.data.clone(),
        },
        sample_signature(),
    ));
    assert_eq!(tx, expected);
}

#[test]
fn access_list_record_is_rebuilt_with_its_fields() {
    let rec = sample_record(0x01);
    let tx = rec.try_build_typed_tx().unwrap();
    let expected = TypedTransaction::Enveloped(TxEnvelope::Eip2930(
        TxEip2930 {
            chain_id: 534352,
            nonce: 17,
            gas_price: 1_000_000_007,
            gas_limit: 21_000,
            to: rec.to,
            value: rec.value,
            access_list: rec.access_list.clone(),
            input: rec.data.clone(),
        },
        sample_signature(),
    ));
    assert_eq!(tx, expected);
}

#[test]
fn dynamic_fee_record_is_rebuilt_with_its_fields() {
    let rec = sample_record(0x02);
    let tx = rec.try_build_typed_tx().unwrap();
    let expected = TypedTransaction::Enveloped(TxEnvelope::Eip1559(
        TxEip1559 {
            chain_id: 534352,
            nonce: 17,
            gas_limit: 21_000,
            max_fee_per_gas: 2_000_000_000,
            max_priority_fee_per_gas: 3,
            to: rec.to,
            value: rec.value,
            access_list: rec.access_list.clone(),
            input: rec.data.clone(),
        },
        sample_signature(),
    ));
    assert_eq!(tx, expected);
}

#[test]
fn l1_message_is_rebuilt_with_hash_and_sender() {
    let mut rec = sample_record(0x7e);
    // Neither chain id nor signature counts for a message from L1.
    rec.chain_id = None;
    rec.v = 5;
    let tx = rec.try_build_typed_tx().unwrap();
    let expected = TypedTransaction::L1Msg(TxL1Msg {
        tx_hash: rec.tx_hash,
        from: rec.from,
        nonce: 17,
        gas_limit: 21_000,
        to: rec.to,
        value: rec.value,
        input: rec.data.clone(),
    });
    assert_eq!(tx, expected);
    assert!(tx.is_l1_msg());
}

#[test]
fn rebuilt_transaction_reads_back_the_record() {
    for ty in [0x00u8, 0x01, 0x02, 0x7e] {
        let rec = sample_record(ty);
        let tx = rec.try_build_typed_tx().unwrap();
        assert_eq!(tx.ty(), ty);
        assert_eq!(tx.nonce(), rec.nonce);
        assert_eq!(tx.gas_limit(), rec.gas_limit);
        assert_eq!(tx.to(), rec.to);
        assert_eq!(tx.value(), rec.value);
        assert_eq!(tx.input(), &rec.data);
        assert_eq!(tx.is_l1_msg(), ty == 0x7e);
    }
}

#[test]
fn contract_creation_keeps_its_empty_destination() {
    for ty in [0x00u8, 0x01, 0x02, 0x7e] {
        let mut rec = sample_record(ty);
        rec.to = TxKind::Create;
        rec.data = Vec::new();
        let tx = rec.try_build_typed_tx().unwrap();
        assert_eq!(tx.to(), TxKind::Create);
        assert!(tx.input().is_empty());
    }
}

#[test]
fn legacy_record_may_lack_a_chain_id() {
    let mut rec = sample_record(0x00);
    rec.chain_id = None;
    let tx = rec.try_build_typed_tx().unwrap();
    assert_eq!(tx.chain_id(), None);
    assert_eq!(tx.nonce(), 17);
}

#[test]
fn typed_record_without_chain_id_is_refused() {
    for ty in [0x01u8, 0x02] {
        let mut rec = sample_record(ty);
        rec.chain_id = None;
        assert_eq!(rec.try_build_typed_tx(), Err(TxBuildError::MissingChainId));
    }
}

#[test]
fn missing_chain_id_is_reported_before_a_bad_signature() {
    for ty in [0x01u8, 0x02] {
        let mut rec = sample_record(ty);
        rec.chain_id = None;
        rec.v = 2;
        assert_eq!(rec.try_build_typed_tx(), Err(TxBuildError::MissingChainId));
    }
}

#[test]
fn chain_id_is_kept_where_present() {
    assert_eq!(sample_record(0x00).try_build_typed_tx().unwrap().chain_id(), Some(534352));
    assert_eq!(sample_record(0x01).try_build_typed_tx().unwrap().chain_id(), Some(534352));
    assert_eq!(sample_record(0x02).try_build_typed_tx().unwrap().chain_id(), Some(534352));
    assert_eq!(sample_record(0x7e).try_build_typed_tx().unwrap().chain_id(), None);
}

#[test]
fn unknown_type_byte_is_refused() {
    for ty in [0xffu8, 0x03, 0x04, 0x7d, 0x7f, 0x80] {
        let rec = sample_record(ty);
        assert_eq!(
            rec.try_build_typed_tx(),
            Err(TxBuildError::UnsupportedTransactionType(ty))
        );
    }
}

#[test]
fn every_type_byte_outside_the_four_is_refused() {
    for ty in 0u8..=255 {
        let rec = sample_record(ty);
        let built = rec.try_build_typed_tx();
        if ty == 0x00 || ty == 0x01 || ty == 0x02 || ty == 0x7e {
            assert!(built.is_ok());
        } else {
            assert_eq!(built, Err(TxBuildError::UnsupportedTransactionType(ty)));
        }
    }
}

#[test]
fn signed_record_with_a_bad_recovery_value_is_refused() {
    for ty in [0x00u8, 0x01, 0x02] {
        let mut rec = sample_record(ty);
        rec.v = 30;
        assert_eq!(
            rec.try_build_typed_tx(),
            Err(TxBuildError::SignatureError(SignatureError::InvalidParity(30)))
        );
    }
}

#[test]
fn signature_of_a_record_is_decoded_from_its_fields() {
    let mut rec = sample_record(0x02);
    assert_eq!(rec.signature(), Ok(sample_signature()));
    rec.v = 27;
    assert_eq!(rec.signature().map(|s| s.y_parity), Ok(false));
    rec.v = 3;
    assert_eq!(rec.signature(), Err(SignatureError::InvalidParity(3)));
}

#[test]
fn l1_record_is_told_by_its_type_byte_alone() {
    for ty in 0u8..=255 {
        assert_eq!(sample_record(ty).is_l1_tx(), ty == 0x7e);
    }
}

#[test]
fn only_an_l1_record_hands_out_its_sender() {
    let from = Address { bytes: [0x11; 20] };
    assert_eq!(sample_record(0x7e).classify(), TxClass::L1Message { from });
    assert_eq!(sample_record(0x00).classify(), TxClass::Legacy);
    assert_eq!(sample_record(0x01).classify(), TxClass::AccessList);
    assert_eq!(sample_record(0x02).classify(), TxClass::DynamicFee);
    assert_eq!(sample_record(0x55).classify(), TxClass::Unsupported(0x55));
}

#[test]
fn record_accessors_hand_out_the_fields() {
    let rec = sample_record(0x02);
    assert_eq!(rec.tx_hash(), B256 { bytes: [0xaa; 32] });
    assert_eq!(rec.ty(), 0x02);
    assert_eq!(rec.nonce(), 17);
    assert_eq!(TxTrace::gas_limit(&rec), 21_000);
    assert_eq!(rec.gas_price(), 1_000_000_007);
    assert_eq!(rec.max_fee_per_gas(), 2_000_000_000);
    assert_eq!(rec.max_priority_fee_per_gas(), 3);
    assert_eq!(rec.to(), TxKind::Call(Address { bytes: [0x22; 20] }));
    assert_eq!(TxTrace::chain_id(&rec), Some(534352));
    assert_eq!(rec.value(), U256 { limbs: [5, 6, 0, 0] });
    assert_eq!(rec.data(), vec![0xde, 0xad, 0xbe, 0xef]);
    assert_eq!(rec.access_list(), rec.access_list);
    assert_eq!(rec.v(), 1);
}

#[test]
fn fee_fields_follow_the_kind() {
    let legacy = sample_record(0x00).try_build_typed_tx().unwrap();
    assert_eq!(legacy.max_fee_per_gas(), 1_000_000_007);
    assert_eq!(legacy.max_priority_fee_per_gas(), None);
    let access_list = sample_record(0x01).try_build_typed_tx().unwrap();
    assert_eq!(access_list.max_fee_per_gas(), 1_000_000_007);
    assert_eq!(access_list.max_priority_fee_per_gas(), None);
    let dynamic = sample_record(0x02).try_build_typed_tx().unwrap();
    assert_eq!(dynamic.max_fee_per_gas(), 2_000_000_000);
    assert_eq!(dynamic.max_priority_fee_per_gas(), Some(3));
    let l1 = sample_record(0x7e).try_build_typed_tx().unwrap();
    assert_eq!(l1.max_fee_per_gas(), 0);
    assert_eq!(l1.max_priority_fee_per_gas(), None);
}

#[test]
fn signed_kinds_carry_the_decoded_signature() {
    for ty in [0x00u8, 0x01, 0x02] {
        let tx = sample_record(ty).try_build_typed_tx().unwrap();
        assert_eq!(tx.signature(), Some(sample_signature()));
    }
    assert_eq!(sample_record(0x7e).try_build_typed_tx().unwrap().signature(), None);
}

#[test]
fn copies_hold_what_was_copied() {
    let rec = sample_record(0x01);
    assert_eq!(sbv_primitives::bytes::copy_bytes(&rec.data), rec.data);
    assert_eq!(sbv_primitives::transaction::copy_access_list(&rec.access_list), rec.access_list);
    assert!(sbv_primitives::bytes::copy_bytes(&Vec::new()).is_empty());
}
