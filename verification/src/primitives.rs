//! Fixed-width values that traces are made of: addresses, 32-byte words and
//! 256-bit unsigned integers.

use crate::bytes::{
    be_bytes, lemma_be_bytes_split, lemma_be_bytes_truncates, lemma_pow256_values, pow256,
    u64_to_be_bytes,
};
use vstd::prelude::*;

verus! {

/// A 20-byte account address.
#[derive(Clone, Copy, Debug, PartialEq, Eq, Hash)]
pub struct Address {
    pub bytes: [u8; 20],
}

/// A 32-byte word: a transaction hash, a state root or a code hash.
#[derive(Clone, Copy, Debug, PartialEq, Eq, Hash)]
pub struct B256 {
    pub bytes: [u8; 32],
}

/// A 256-bit unsigned integer, held as four 64-bit limbs, least significant
/// first.
#[derive(Clone, Copy, Debug, PartialEq, Eq, Hash)]
pub struct U256 {
    pub limbs: [u64; 4],
}

/// Where a transaction is sent: to an account, or nowhere when it creates a
/// contract.
#[derive(Clone, Copy, Debug, PartialEq, Eq)]
pub enum TxKind {
    Create,
    Call(Address),
}

/// `2^64`, the weight of the second limb.
pub open spec fn limb_base() -> nat {
    0x1_0000_0000_0000_0000
}

/// The number that four limbs denote, least significant first: the weights
/// are `2^64`, `2^128` and `2^192`.
pub open spec fn limbs_value(l0: u64, l1: u64, l2: u64, l3: u64) -> nat {
    (l0 as nat) + (l1 as nat) * 0x1_0000_0000_0000_0000 + (l2 as nat)
        * 0x1_0000_0000_0000_0000_0000_0000_0000_0000 + (l3 as nat)
        * 0x1_0000_0000_0000_0000_0000_0000_0000_0000_0000_0000_0000_0000
}

impl Address {
    /// Whether the two addresses hold the same bytes.
    pub fn equals(&self, other: &Address) -> (r: bool)
        ensures
            r == (*self == *other),
    {
        let mut i: usize = 0;
        while i < 20
            invariant
                i <= 20,
                forall|j: int| 0 <= j < i ==> self.bytes[j] == other.bytes[j],
            decreases 20 - i,
        {
            if self.bytes[i] != other.bytes[i] {
                return false;
            }
            i = i + 1;
        }
        assert(self.bytes =~= other.bytes);
        true
    }
}

impl B256 {
    /// Whether every byte is zero.
    pub open spec fn spec_is_zero(&self) -> bool {
        forall|i: int| 0 <= i < 32 ==> self.bytes[i] == 0u8
    }

    /// The word whose bytes are all zero.
    pub open spec fn spec_zero() -> B256 {
        B256 {
            bytes: [
                0u8, 0u8, 0u8, 0u8, 0u8, 0u8, 0u8, 0u8,
                0u8, 0u8, 0u8, 0u8, 0u8, 0u8, 0u8, 0u8,
                0u8, 0u8, 0u8, 0u8, 0u8, 0u8, 0u8, 0u8,
                0u8, 0u8, 0u8, 0u8, 0u8, 0u8, 0u8, 0u8,
            ],
        }
    }

    /// The word whose bytes are all zero.
    #[verifier::when_used_as_spec(spec_zero)]
    pub fn zero() -> (r: B256)
        ensures
            r == B256::spec_zero(),
            r.spec_is_zero(),
    {
        let r = B256 { bytes: [0u8; 32] };
        assert(r.bytes =~= B256::spec_zero().bytes);
        r
    }

    /// Whether every byte is zero.
    #[verifier::when_used_as_spec(spec_is_zero)]
    pub fn is_zero(&self) -> (r: bool)
        ensures
            r == self.spec_is_zero(),
    {
        let mut i: usize = 0;
        while i < 32
            invariant
                i <= 32,
                forall|j: int| 0 <= j < i ==> self.bytes[j] == 0u8,
            decreases 32 - i,
        {
            if self.bytes[i] != 0 {
                return false;
            }
            i = i + 1;
        }
        true
    }

    /// Whether the two words hold the same bytes.
    pub fn equals(&self, other: &B256) -> (r: bool)
        ensures
            r == (*self == *other),
    {
        let mut i: usize = 0;
        while i < 32
            invariant
                i <= 32,
                forall|j: int| 0 <= j < i ==> self.bytes[j] == other.bytes[j],
            decreases 32 - i,
        {
            if self.bytes[i] != other.bytes[i] {
                return false;
            }
            i = i + 1;
        }
        assert(self.bytes =~= other.bytes);
        true
    }
}

impl View for U256 {
    type V = nat;

    /// The number that the limbs denote.
    open spec fn view(&self) -> nat {
        limbs_value(self.limbs[0], self.limbs[1], self.limbs[2], self.limbs[3])
    }
}

/// What a borrow takes from a limb: one, or nothing.
pub open spec fn borrow(taken: bool) -> int {
    if taken {
        1
    } else {
        0
    }
}

/// One limb of a subtraction: `a - b - borrow_in`, and whether it borrows from
/// the next limb.
fn sub_limb(a: u64, b: u64, borrow_in: bool) -> (r: (u64, bool))
    ensures
        r.0 - borrow(r.1) * limb_base() == a - b - borrow(borrow_in),
{
    let base: u128 = 0x1_0000_0000_0000_0000;
    let carry: u128 = if borrow_in { 1 } else { 0 };
    let t: u128 = base + (a as u128) - (b as u128) - carry;
    if t >= base {
        ((t - base) as u64, false)
    } else {
        (t as u64, true)
    }
}

impl U256 {
    /// The number zero.
    pub open spec fn spec_zero() -> U256 {
        U256 { limbs: [0u64, 0u64, 0u64, 0u64] }
    }

    /// The number zero.
    #[verifier::when_used_as_spec(spec_zero)]
    pub fn zero() -> (r: U256)
        ensures
            r == U256::spec_zero(),
            r@ == 0,
    {
        let r = U256 { limbs: [0, 0, 0, 0] };
        assert(r.limbs =~= U256::spec_zero().limbs);
        r
    }

    /// The 256-bit integer with the value of `x`.
    pub fn from_u64(x: u64) -> (r: U256)
        ensures
            r@ == x,
    {
        U256 { limbs: [x, 0, 0, 0] }
    }

    /// Whether the value is zero.
    pub fn is_zero(&self) -> (r: bool)
        ensures
            r == (self@ == 0),
    {
        let r = self.limbs[0] == 0 && self.limbs[1] == 0 && self.limbs[2] == 0 && self.limbs[3]
            == 0;
        proof {
            lemma_limbs_value_bounds(self.limbs[0], self.limbs[1], self.limbs[2], self.limbs[3]);
        }
        r
    }

    /// The value cut to its low 64 bits.
    pub fn low_u64(&self) -> (r: u64)
        ensures
            r == self@ % limb_base(),
    {
        proof {
            let hi = (self.limbs[1] as int) + (self.limbs[2] as int) * 0x1_0000_0000_0000_0000 + (
            self.limbs[3] as int) * 0x1_0000_0000_0000_0000_0000_0000_0000_0000;
            vstd::arithmetic::div_mod::lemma_fundamental_div_mod_converse(
                self@ as int,
                0x1_0000_0000_0000_0000,
                hi,
                self.limbs[0] as int,
            );
        }
        self.limbs[0]
    }

    /// Whether the two integers have the same value.
    pub fn equals(&self, other: &U256) -> (r: bool)
        ensures
            r == (self@ == other@),
            r == (*self == *other),
    {
        let r = self.limbs[0] == other.limbs[0] && self.limbs[1] == other.limbs[1]
            && self.limbs[2] == other.limbs[2] && self.limbs[3] == other.limbs[3];
        proof {
            lemma_limbs_value_injective(*self, *other);
            if r {
                assert(self.limbs =~= other.limbs);
            }
        }
        r
    }

    /// Whether this integer is below `other`.
    pub fn lt(&self, other: &U256) -> (r: bool)
        ensures
            r == (self@ < other@),
    {
        proof {
            lemma_limbs_value_order(*self, *other);
        }
        if self.limbs[3] != other.limbs[3] {
            self.limbs[3] < other.limbs[3]
        } else if self.limbs[2] != other.limbs[2] {
            self.limbs[2] < other.limbs[2]
        } else if self.limbs[1] != other.limbs[1] {
            self.limbs[1] < other.limbs[1]
        } else {
            self.limbs[0] < other.limbs[0]
        }
    }

    /// The distance between the two integers.
    pub fn abs_diff(&self, other: &U256) -> (r: U256)
        ensures
            r@ == if self@ < other@ {
                other@ - self@
            } else {
                self@ - other@
            },
    {
        if self.lt(other) {
            other.minus(self)
        } else {
            self.minus(other)
        }
    }

    /// `self - other`, for `other` not above `self`.
    fn minus(&self, other: &U256) -> (r: U256)
        requires
            other@ <= self@,
        ensures
            r@ == self@ - other@,
    {
        let (d0, c0) = sub_limb(self.limbs[0], other.limbs[0], false);
        let (d1, c1) = sub_limb(self.limbs[1], other.limbs[1], c0);
        let (d2, c2) = sub_limb(self.limbs[2], other.limbs[2], c1);
        let (d3, c3) = sub_limb(self.limbs[3], other.limbs[3], c2);
        let r = U256 { limbs: [d0, d1, d2, d3] };
        proof {
            // The borrows cancel from limb to limb; the last one would take
            // the difference below zero.
            lemma_limbs_value_bounds(d0, d1, d2, d3);
            lemma_pow256_values();
            assert(r@ - borrow(c3) * pow256(32) == self@ - other@);
        }
        r
    }

    /// The 32 bytes of the value, most significant first.
    pub fn to_be_bytes(&self) -> (r: [u8; 32])
        ensures
            r@ == be_bytes(self@, 32),
    {
        let w3: [u8; 8] = u64_to_be_bytes(self.limbs[3]);
        let w2: [u8; 8] = u64_to_be_bytes(self.limbs[2]);
        let w1: [u8; 8] = u64_to_be_bytes(self.limbs[1]);
        let w0: [u8; 8] = u64_to_be_bytes(self.limbs[0]);
        let mut r: [u8; 32] = [0u8; 32];
        let mut i: usize = 0;
        while i < 8
            invariant
                i <= 8,
                forall|j: int| 0 <= j < i ==> r[j] == w3[j],
                forall|j: int| 0 <= j < i ==> r[8 + j] == w2[j],
                forall|j: int| 0 <= j < i ==> r[16 + j] == w1[j],
                forall|j: int| 0 <= j < i ==> r[24 + j] == w0[j],
            decreases 8 - i,
        {
            r[i] = w3[i];
            r[8 + i] = w2[i];
            r[16 + i] = w1[i];
            r[24 + i] = w0[i];
            i = i + 1;
        }
        proof {
            assert(r@ =~= w3@ + w2@ + w1@ + w0@);
            lemma_be_bytes_of_limbs(*self);
        }
        r
    }
}

/// Four limbs denote a number below `2^256`, and zero only when all are zero.
pub proof fn lemma_limbs_value_bounds(l0: u64, l1: u64, l2: u64, l3: u64)
    ensures
        limbs_value(l0, l1, l2, l3) < pow256(32),
        limbs_value(l0, l1, l2, l3) == 0 <==> l0 == 0 && l1 == 0 && l2 == 0 && l3 == 0,
{
    lemma_pow256_values();
}

/// Comparing two integers is comparing their limbs from the most significant
/// down.
pub proof fn lemma_limbs_value_order(a: U256, b: U256)
    ensures
        a@ < b@ <==> (a.limbs[3] < b.limbs[3] || (a.limbs[3] == b.limbs[3] && (a.limbs[2]
            < b.limbs[2] || (a.limbs[2] == b.limbs[2] && (a.limbs[1] < b.limbs[1] || (a.limbs[1]
            == b.limbs[1] && a.limbs[0] < b.limbs[0])))))),
{
}

/// Two integers with the same value are the same integer.
pub proof fn lemma_limbs_value_injective(a: U256, b: U256)
    ensures
        a@ == b@ <==> a == b,
        a@ == b@ <==> (a.limbs[0] == b.limbs[0] && a.limbs[1] == b.limbs[1] && a.limbs[2]
            == b.limbs[2] && a.limbs[3] == b.limbs[3]),
{
    lemma_limbs_value_order(a, b);
    lemma_limbs_value_order(b, a);
    if a.limbs[0] == b.limbs[0] && a.limbs[1] == b.limbs[1] && a.limbs[2] == b.limbs[2]
        && a.limbs[3] == b.limbs[3] {
        assert(a.limbs =~= b.limbs);
    }
}

/// The 32-byte encoding of a 256-bit integer is the 8-byte encodings of its
/// limbs, most significant limb first.
pub proof fn lemma_be_bytes_of_limbs(x: U256)
    ensures
        be_bytes(x@, 32) == be_bytes(x.limbs[3] as nat, 8) + be_bytes(x.limbs[2] as nat, 8)
            + be_bytes(x.limbs[1] as nat, 8) + be_bytes(x.limbs[0] as nat, 8),
{
    lemma_pow256_values();
    let w: int = 0x1_0000_0000_0000_0000;
    let (l0, l1, l2, l3) = (
        x.limbs[0] as int,
        x.limbs[1] as int,
        x.limbs[2] as int,
        x.limbs[3] as int,
    );
    let v1 = l1 + l2 * 0x1_0000_0000_0000_0000 + l3 * 0x1_0000_0000_0000_0000_0000_0000_0000_0000;
    let v2 = l2 + l3 * 0x1_0000_0000_0000_0000;
    vstd::arithmetic::div_mod::lemma_fundamental_div_mod_converse(x@ as int, w, v1, l0);
    vstd::arithmetic::div_mod::lemma_fundamental_div_mod_converse(v1, w, v2, l1);
    vstd::arithmetic::div_mod::lemma_fundamental_div_mod_converse(v2, w, l3, l2);
    lemma_be_bytes_split(x@, 24, 8);
    lemma_be_bytes_split(v1 as nat, 16, 8);
    lemma_be_bytes_split(v2 as nat, 8, 8);
    lemma_be_bytes_truncates(x@, 8);
    lemma_be_bytes_truncates(v1 as nat, 8);
    lemma_be_bytes_truncates(v2 as nat, 8);
}

} // verus!
