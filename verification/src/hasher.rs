//! The Keccak sponge that block commitments are absorbed into.
//!
//! The hasher itself is `tiny_keccak::Keccak`. Verified code sees it through
//! three facts: which bytes it has absorbed so far, which security level it was
//! made with, and that its digest is a function of those two and of the length
//! asked for.

use tiny_keccak::Hasher;
use tiny_keccak::Keccak;
use vstd::prelude::*;

verus! {

#[verifier::external_type_specification]
#[verifier::external_body]
pub struct ExKeccak(tiny_keccak::Keccak);

/// The bytes that a hasher has absorbed since it was made, in order.
pub uninterp spec fn keccak_absorbed(hasher: Keccak) -> Seq<u8>;

/// The security level, in bits, that a hasher was made with.
pub uninterp spec fn keccak_bits(hasher: Keccak) -> nat;

/// The first `len` bytes that Keccak at security level `bits` gives for `input`.
pub uninterp spec fn keccak_output(bits: nat, input: Seq<u8>, len: nat) -> Seq<u8>;

/// `tiny_keccak::Keccak::v256`: a fresh hasher at the 256-bit security level.
/// Trusted: it has absorbed nothing yet.
#[verifier::external_body]
pub(crate) fn keccak_v256() -> (hasher: Keccak)
    ensures
        keccak_absorbed(hasher) == Seq::<u8>::empty(),
        keccak_bits(hasher) == 256,
{
    Keccak::v256()
}

/// `tiny_keccak::Hasher::update` on a `Keccak`. Trusted: the input is appended
/// to what was absorbed before, however the bytes are split over calls, and
/// the security level stays.
#[verifier::external_body]
pub(crate) fn keccak_update(hasher: &mut Keccak, input: &[u8])
    ensures
        keccak_absorbed(*final(hasher)) == keccak_absorbed(*old(hasher)) + input@,
        keccak_bits(*final(hasher)) == keccak_bits(*old(hasher)),
{
    hasher.update(input)
}

/// `tiny_keccak::Hasher::finalize` on a `Keccak`, into 32 bytes. Trusted: the
/// digest depends on the security level and on the bytes absorbed, and on
/// nothing else.
#[verifier::external_body]
pub(crate) fn keccak_finalize(hasher: Keccak) -> (digest: [u8; 32])
    ensures
        digest@ == keccak_output(keccak_bits(hasher), keccak_absorbed(hasher), 32),
{
    let mut digest = [0u8; 32];
    hasher.finalize(&mut digest);
    digest
}

/// The Keccak-256 digest of `input`.
pub open spec fn keccak256(input: Seq<u8>) -> Seq<u8> {
    keccak_output(256, input, 32)
}

} // verus!
