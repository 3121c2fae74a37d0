use sbv_primitives::bytes::{u16_to_be_bytes, u64_to_be_bytes};
use sbv_primitives::primitives::{Address, B256, U256};
use sbv_primitives::signature::{decode_signature, Signature, SignatureError};

fn alloy_of(x: &U256) -> alloy::primitives::U256 {
    alloy::primitives::U256::from_limbs(x.limbs)
}

#[test]
fn u64_is_written_most_significant_byte_first() {
    assert_eq!(
        u64_to_be_bytes(0x0102_0304_0506_0708),
        [0x01, 0x02, 0x03, 0x04, 0x05, 0x06, 0x07, 0x08]
    );
    assert_eq!(u64_to_be_bytes(0), [0u8; 8]);
    assert_eq!(u64_to_be_bytes(u64::MAX), [0xffu8; 8]);
    assert_eq!(u64_to_be_bytes(256), 256u64.to_be_bytes());
}

#[test]
fn u16_is_written_most_significant_byte_first() {
    assert_eq!(u16_to_be_bytes(0x1234), [0x12, 0x34]);
    assert_eq!(u16_to_be_bytes(0), [0, 0]);
    assert_eq!(u16_to_be_bytes(u16::MAX), [0xff, 0xff]);
}

#[test]
fn u256_bytes_agree_with_alloy() {
    let samples = [
        U256 { limbs: [0, 0, 0, 0] },
        U256 { limbs: [1, 0, 0, 0] },
        U256 { limbs: [0, 1, 0, 0] },
        U256 { limbs: [0x1122_3344_5566_7788, 0x99aa_bbcc_ddee_ff00, 7, 0x8000_0000_0000_0000] },
        U256 { limbs: [u64::MAX; 4] },
    ];
    for x in samples.iter() {
        assert_eq!(x.to_be_bytes(), alloy_of(x).to_be_bytes::<32>());
    }
}

#[test]
fn u256_bytes_of_one_limb_each() {
    let x = U256 { limbs: [0x04, 0x03, 0x02, 0x01] };
    let mut expected = [0u8; 32];
    expected[7] = 0x01;
    expected[15] = 0x02;
    expected[23] = 0x03;
    expected[31] = 0x04;
    assert_eq!(x.to_be_bytes(), expected);
}

#[test]
fn u256_low_u64_cuts_the_high_limbs() {
    let x = U256 { limbs: [42, 1, 2, 3] };
    assert_eq!(x.low_u64(), 42);
    assert_eq!(U256::from_u64(u64::MAX).low_u64(), u64::MAX);
    assert_eq!(x.low_u64(), alloy_of(&x).wrapping_to::<u64>());
}

#[test]
fn u256_zero_and_from_u64() {
    assert!(U256::zero().is_zero());
    assert!(!U256::from_u64(1).is_zero());
    assert!(!U256 { limbs: [0, 0, 0, 1] }.is_zero());
    assert_eq!(U256::from_u64(9).limbs, [9, 0, 0, 0]);
    assert_eq!(U256::zero(), U256::from_u64(0));
}

#[test]
fn u256_order_goes_by_the_highest_limb_first() {
    let small = U256 { limbs: [u64::MAX, u64::MAX, u64::MAX, 0] };
    let large = U256 { limbs: [0, 0, 0, 1] };
    assert!(small.lt(&large));
    assert!(!large.lt(&small));
    assert!(!small.lt(&small));
    assert!(U256::from_u64(5).lt(&U256::from_u64(6)));
    assert!(U256 { limbs: [9, 1, 0, 0] }.lt(&U256 { limbs: [0, 2, 0, 0] }));
    assert!(small.equals(&small));
    assert!(!small.equals(&large));
}

#[test]
fn u256_abs_diff_borrows_across_limbs() {
    let a = U256 { limbs: [0, 0, 0, 1] };
    let b = U256::from_u64(1);
    let expected = U256 { limbs: [u64::MAX, u64::MAX, u64::MAX, 0] };
    assert_eq!(a.abs_diff(&b), expected);
    assert_eq!(b.abs_diff(&a), expected);
    assert_eq!(a.abs_diff(&a), U256::zero());
    assert_eq!(U256::from_u64(10).abs_diff(&U256::from_u64(3)), U256::from_u64(7));
}

#[test]
fn u256_abs_diff_agrees_with_alloy() {
    let a = U256 { limbs: [3, 0x8000_0000_0000_0000, 0, 5] };
    let b = U256 { limbs: [4, 0x8000_0000_0000_0001, u64::MAX, 4] };
    let d = a.abs_diff(&b);
    assert_eq!(alloy_of(&d), alloy_of(&a).abs_diff(alloy_of(&b)));
    assert_eq!(a.lt(&b), alloy_of(&a) < alloy_of(&b));
}

#[test]
fn words_and_addresses_compare_by_their_bytes() {
    let mut bytes = [0u8; 32];
    assert!(B256 { bytes }.is_zero());
    assert!(B256::zero().is_zero());
    bytes[31] = 1;
    assert!(!B256 { bytes }.is_zero());
    assert!(B256 { bytes }.equals(&B256 { bytes }));
    assert!(!B256 { bytes }.equals(&B256::zero()));
    let a = Address { bytes: [7u8; 20] };
    let mut other = [7u8; 20];
    other[19] = 8;
    assert!(a.equals(&Address { bytes: [7u8; 20] }));
    assert!(!a.equals(&Address { bytes: other }));
}

#[test]
fn recovery_value_is_read_in_three_encodings() {
    let r = U256::from_u64(11);
    let s = U256::from_u64(12);
    for (v, parity) in [(0u64, false), (1, true), (27, false), (28, true), (35, false), (36, true)] {
        assert_eq!(decode_signature(r, s, v), Ok(Signature { r, s, y_parity: parity }));
    }
    // The replay-protected form of chain 534352.
    assert_eq!(decode_signature(r, s, 1068739).map(|sig| sig.y_parity), Ok(false));
    assert_eq!(decode_signature(r, s, 1068740).map(|sig| sig.y_parity), Ok(true));
    assert_eq!(decode_signature(r, s, u64::MAX).map(|sig| sig.y_parity), Ok(false));
}

#[test]
fn recovery_value_outside_the_encodings_is_refused() {
    let r = U256::from_u64(11);
    let s = U256::from_u64(12);
    for v in (2u64..27).chain(29..35) {
        assert_eq!(decode_signature(r, s, v), Err(SignatureError::InvalidParity(v)));
    }
}

#[test]
fn decoded_signature_agrees_with_alloy() {
    let r = U256 { limbs: [1, 2, 3, 4] };
    let s = U256 { limbs: [5, 6, 7, 8] };
    for v in 0u64..100 {
        let ours = decode_signature(r, s, v).ok();
        let theirs = alloy::primitives::normalize_v(v)
            .map(|parity| alloy::primitives::Signature::new(alloy_of(&r), alloy_of(&s), parity));
        assert_eq!(ours.is_some(), theirs.is_some());
        if let (Some(ours), Some(theirs)) = (ours, theirs) {
            assert_eq!(ours.y_parity, theirs.v());
            assert_eq!(alloy_of(&ours.r), theirs.r());
            assert_eq!(alloy_of(&ours.s), theirs.s());
        }
    }
}
