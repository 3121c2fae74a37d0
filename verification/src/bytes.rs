//! Byte strings, and unsigned integers written as such.
//!
//! Every fixed-width field that is fed to a digest is written most significant
//! byte first. `be_bytes` is the mathematical statement of that layout; the
//! executable encoders are proved against it.

use vstd::prelude::*;

verus! {

/// `256^k`.
pub open spec fn pow256(k: nat) -> nat
    decreases k,
{
    if k == 0 {
        1
    } else {
        256 * pow256((k - 1) as nat)
    }
}

/// The `len` low-order bytes of `v`, most significant first.
///
/// A value that needs more than `len` bytes loses its high-order bytes: the
/// result is that of `v % 256^len`.
pub open spec fn be_bytes(v: nat, len: nat) -> Seq<u8>
    decreases len,
{
    if len == 0 {
        Seq::empty()
    } else {
        be_bytes(v / 256, (len - 1) as nat).push((v % 256) as u8)
    }
}

/// The number that a big-endian byte string denotes.
pub open spec fn be_value(bytes: Seq<u8>) -> nat
    decreases bytes.len(),
{
    if bytes.len() == 0 {
        0
    } else {
        256 * be_value(bytes.drop_last()) + bytes.last() as nat
    }
}

/// No power of 256 is zero.
pub proof fn lemma_pow256_positive(k: nat)
    ensures
        pow256(k) > 0,
    decreases k,
{
    if k > 0 {
        lemma_pow256_positive((k - 1) as nat);
    }
}

/// The first powers of 256, as numbers.
pub proof fn lemma_pow256_values()
    ensures
        pow256(0) == 1,
        pow256(1) == 0x100,
        pow256(2) == 0x1_0000,
        pow256(8) == 0x1_0000_0000_0000_0000,
        pow256(16) == 0x1_0000_0000_0000_0000_0000_0000_0000_0000,
        pow256(24) == 0x1_0000_0000_0000_0000_0000_0000_0000_0000_0000_0000_0000_0000,
        pow256(32)
            == 0x1_0000_0000_0000_0000_0000_0000_0000_0000_0000_0000_0000_0000_0000_0000_0000_0000,
{
    reveal_with_fuel(pow256, 9);
    assert(pow256(8) == 0x1_0000_0000_0000_0000);
    assert(pow256(16) == 0x1_0000_0000_0000_0000 * pow256(8));
    assert(pow256(24) == 0x1_0000_0000_0000_0000 * pow256(16));
    assert(pow256(32) == 0x1_0000_0000_0000_0000 * pow256(24));
}

/// An encoding in `len` bytes has `len` bytes.
pub proof fn lemma_be_bytes_len(v: nat, len: nat)
    ensures
        be_bytes(v, len).len() == len,
    decreases len,
{
    if len > 0 {
        lemma_be_bytes_len(v / 256, (len - 1) as nat);
    }
}

/// Encoding then reading gives the value back, cut to `len` bytes.
pub proof fn lemma_be_value_of_bytes(v: nat, len: nat)
    ensures
        be_value(be_bytes(v, len)) == v % pow256(len),
    decreases len,
{
    if len > 0 {
        let rest = (len - 1) as nat;
        lemma_be_value_of_bytes(v / 256, rest);
        lemma_be_bytes_len(v / 256, rest);
        lemma_pow256_positive(rest);
        let s = be_bytes(v, len);
        assert(s.drop_last() == be_bytes(v / 256, rest));
        assert(s.last() == (v % 256) as u8);
        let p = pow256(rest) as int;
        let q = (v / 256) as int;
        // v = 256 * q + v % 256 and q = p * (q / p) + q % p.
        assert(v == 256 * q + v % 256);
        vstd::arithmetic::div_mod::lemma_fundamental_div_mod(q, p);
        let hi = q / p;
        let lo = q % p;
        assert(v == (256 * p) * hi + (256 * lo + v % 256)) by (nonlinear_arith)
            requires
                v == 256 * q + v % 256,
                q == p * hi + lo,
        ;
        assert(0 <= 256 * lo + v % 256 < 256 * p) by (nonlinear_arith)
            requires
                0 <= lo < p,
                0 <= v % 256 < 256,
        ;
        vstd::arithmetic::div_mod::lemma_fundamental_div_mod_converse(
            v as int,
            256 * p,
            hi,
            256 * lo + v % 256,
        );
    } else {
        assert(v % 1 == 0);
    }
}

/// Only the low `len` bytes of a value reach its encoding.
pub proof fn lemma_be_bytes_truncates(v: nat, len: nat)
    ensures
        be_bytes(v, len) == be_bytes(v % pow256(len), len),
    decreases len,
{
    if len > 0 {
        let rest = (len - 1) as nat;
        lemma_pow256_positive(rest);
        let p = pow256(rest) as int;
        let w = v % pow256(len);
        lemma_be_bytes_truncates(v / 256, rest);
        lemma_be_bytes_truncates(w / 256, rest);
        // w = v % (256 * p): its low byte and its higher part are those of v, cut.
        vstd::arithmetic::div_mod::lemma_fundamental_div_mod(v as int, 256 * p);
        let k = (v as int) / (256 * p);
        assert(v == 256 * (p * k + w / 256) + w % 256) by (nonlinear_arith)
            requires
                v == (256 * p) * k + w,
                w == 256 * (w / 256) + w % 256,
        ;
        vstd::arithmetic::div_mod::lemma_fundamental_div_mod_converse(
            v as int,
            256,
            p * k + w / 256,
            (w % 256) as int,
        );
        assert(v % 256 == w % 256);
        assert(v / 256 == p * k + w / 256);
        assert(0 <= w / 256 < p) by (nonlinear_arith)
            requires
                0 <= w < 256 * p,
        ;
        vstd::arithmetic::div_mod::lemma_fundamental_div_mod_converse(
            (v / 256) as int,
            p,
            k,
            (w / 256) as int,
        );
        assert((v / 256) % pow256(rest) == w / 256);
        assert((w / 256) % pow256(rest) == w / 256) by {
            vstd::arithmetic::div_mod::lemma_small_mod(w / 256, pow256(rest));
        }
    }
}

/// Two values below `256^len` with the same `len`-byte encoding are equal.
pub proof fn lemma_be_bytes_injective(a: nat, b: nat, len: nat)
    requires
        a < pow256(len),
        b < pow256(len),
        be_bytes(a, len) == be_bytes(b, len),
    ensures
        a == b,
{
    lemma_be_value_of_bytes(a, len);
    lemma_be_value_of_bytes(b, len);
    vstd::arithmetic::div_mod::lemma_small_mod(a, pow256(len));
    vstd::arithmetic::div_mod::lemma_small_mod(b, pow256(len));
}

/// An encoding of `n + k` bytes is the encoding of the high part in `n` bytes
/// followed by that of the value itself in `k` bytes.
pub proof fn lemma_be_bytes_split(v: nat, n: nat, k: nat)
    ensures
        be_bytes(v, n + k) == be_bytes(v / pow256(k), n) + be_bytes(v, k),
    decreases k,
{
    if k == 0 {
        assert(pow256(0) == 1);
        assert(v / 1 == v);
        assert(be_bytes(v, n) + Seq::<u8>::empty() == be_bytes(v, n));
    } else {
        let rest = (k - 1) as nat;
        lemma_be_bytes_split(v / 256, n, rest);
        lemma_pow256_positive(rest);
        vstd::arithmetic::div_mod::lemma_div_denominator(v as int, 256, pow256(rest) as int);
        assert((v / 256) / pow256(rest) == v / pow256(k));
        assert((n + k - 1) as nat == n + rest);
        assert(be_bytes(v, n + k) == be_bytes(v / 256, n + rest).push((v % 256) as u8));
        assert(be_bytes(v, k) == be_bytes(v / 256, rest).push((v % 256) as u8));
        assert((be_bytes(v / pow256(k), n) + be_bytes(v / 256, rest)).push((v % 256) as u8)
            == be_bytes(v / pow256(k), n) + be_bytes(v / 256, rest).push((v % 256) as u8));
    }
}

/// The two bytes of a `u16`, most significant first.
pub fn u16_to_be_bytes(x: u16) -> (r: [u8; 2])
    ensures
        r@ == be_bytes(x as nat, 2),
{
    let b1: u8 = (x % 256) as u8;
    let b0: u8 = (x / 256) as u8;
    let r: [u8; 2] = [b0, b1];
    proof {
        reveal_with_fuel(be_bytes, 3);
        assert(r@ =~= be_bytes(x as nat, 2));
    }
    r
}

/// The eight bytes of a `u64`, most significant first.
pub fn u64_to_be_bytes(x: u64) -> (r: [u8; 8])
    ensures
        r@ == be_bytes(x as nat, 8),
{
    let x1: u64 = x / 256;
    let x2: u64 = x1 / 256;
    let x3: u64 = x2 / 256;
    let x4: u64 = x3 / 256;
    let x5: u64 = x4 / 256;
    let x6: u64 = x5 / 256;
    let x7: u64 = x6 / 256;
    let r: [u8; 8] = [
        (x7 % 256) as u8,
        (x6 % 256) as u8,
        (x5 % 256) as u8,
        (x4 % 256) as u8,
        (x3 % 256) as u8,
        (x2 % 256) as u8,
        (x1 % 256) as u8,
        (x % 256) as u8,
    ];
    proof {
        reveal_with_fuel(be_bytes, 9);
        assert(r@ =~= be_bytes(x as nat, 8));
    }
    r
}

/// A list of byte strings as a mathematical value.
pub open spec fn byte_strings(list: Seq<Vec<u8>>) -> Seq<Seq<u8>> {
    Seq::new(list.len(), |i: int| list[i]@)
}

/// A copy of a byte string.
pub fn copy_bytes(bytes: &Vec<u8>) -> (r: Vec<u8>)
    ensures
        r@ == bytes@,
{
    let mut r: Vec<u8> = Vec::new();
    let mut i: usize = 0;
    while i < bytes.len()
        invariant
            i <= bytes.len(),
            r@ == bytes@.take(i as int),
        decreases bytes.len() - i,
    {
        r.push(bytes[i]);
        assert(bytes@.take(i + 1) == bytes@.take(i as int).push(bytes@[i as int]));
        i = i + 1;
    }
    assert(bytes@.take(i as int) == bytes@);
    r
}

} // verus!
