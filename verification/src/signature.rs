//! Signatures as they stand in a trace: two scalars and a recovery value.

use crate::primitives::U256;
use vstd::prelude::*;

verus! {

/// An ECDSA signature with its recovery bit.
#[derive(Clone, Copy, Debug, PartialEq, Eq)]
pub struct Signature {
    pub r: U256,
    pub s: U256,
    pub y_parity: bool,
}

/// Why the signature fields of a record are no signature.
#[derive(Clone, Copy, Debug, PartialEq, Eq)]
pub enum SignatureError {
    /// The recovery value is in none of the three known encodings.
    InvalidParity(u64),
}

/// The recovery bit that `v` stands for.
///
/// Three encodings are known: the bare bit (0 or 1), the bit plus 27, and the
/// replay-protected form `35 + 2 * chain_id + bit`. Every other value is
/// invalid.
pub open spec fn y_parity_of(v: u64) -> Option<bool> {
    if v == 0 || v == 1 {
        Some(v == 1)
    } else if v == 27 || v == 28 {
        Some(v == 28)
    } else if v >= 35 {
        Some((v - 35) % 2 == 1)
    } else {
        None
    }
}

/// `alloy::primitives::normalize_v`. Trusted: it returns the recovery bit for
/// a value in one of the three encodings and `None` for every other value.
pub assume_specification[ alloy::primitives::normalize_v ](v: u64) -> (parity: Option<bool>)
    ensures
        parity == y_parity_of(v),
;

/// What decoding the signature fields `r`, `s`, `v` gives.
pub open spec fn signature_of(r: U256, s: U256, v: u64) -> Result<Signature, SignatureError> {
    match y_parity_of(v) {
        Some(y_parity) => Ok(Signature { r, s, y_parity }),
        None => Err(SignatureError::InvalidParity(v)),
    }
}

/// Decodes the signature fields of a record.
///
/// Fails exactly when `v` is no recovery value; the scalars are kept as they
/// are.
pub fn decode_signature(r: U256, s: U256, v: u64) -> (res: Result<Signature, SignatureError>)
    ensures
        res == signature_of(r, s, v),
{
    match alloy::primitives::normalize_v(v) {
        Some(y_parity) => Ok(Signature { r, s, y_parity }),
        None => Err(SignatureError::InvalidParity(v)),
    }
}

} // verus!
