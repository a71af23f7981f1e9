//! The operations on single 64-bit words that every backend is built from.
use crate::model;
use vstd::prelude::*;

verus! {

/// The low half of a word fits in 32 bits.
pub proof fn lemma_low32_bound(x: u64)
    ensures
        model::low32(x) <= 0xffff_ffff,
{
    assert(x & 0xffff_ffff <= 0xffff_ffff) by (bit_vector);
}

/// The low half of a word with exchanged halves is the high half of the
/// word, and so is the low half of the word shifted down: a product of low
/// halves can stand for the product of a low and a high half.
pub proof fn lemma_mul_low32(a: u64, b: u64)
    ensures
        model::mul_low32(a, model::swap32(b)) == model::mul32(a, b),
        model::mul_low32(a, model::high32(b)) == model::mul32(a, b),
{
    assert(((b >> 32) | (b << 32)) & 0xffff_ffff == b >> 32) by (bit_vector);
    assert((b >> 32) & 0xffff_ffff == b >> 32) by (bit_vector);
}

/// Addition modulo 2^64 may be regrouped and reordered.
pub proof fn lemma_wadd_regroup(a: u64, b: u64, c: u64)
    ensures
        model::wadd(model::wadd(a, b), c) == model::wadd(a, model::wadd(b, c)),
        model::wadd(model::wadd(a, b), c) == model::wadd(a, model::wadd(c, b)),
        model::wadd(a, b) == model::wadd(b, a),
{
}

/// The word with its two 32-bit halves exchanged.
pub fn swap32(x: u64) -> (r: u64)
    ensures
        r == model::swap32(x),
{
    (x >> 32) | (x << 32)
}

/// The product of the low half of `a` and the high half of `b`, which
/// always fits in a word.
pub fn mul32(a: u64, b: u64) -> (r: u64)
    ensures
        r == model::mul32(a, b),
{
    let x: u64 = a & 0xffff_ffff;
    let y: u64 = b >> 32;
    proof {
        lemma_low32_bound(a);
        assert(y <= 0xffff_ffff) by (bit_vector)
            requires
                y == b >> 32,
        ;
        assert(x * y <= 0xffff_ffff * 0xffff_ffff) by (nonlinear_arith)
            requires
                x <= 0xffff_ffff,
                y <= 0xffff_ffff,
        ;
    }
    x * y
}

/// The product of the low halves of `a` and `b`, which always fits in a
/// word.
pub fn mul_low32(a: u64, b: u64) -> (r: u64)
    ensures
        r == model::mul_low32(a, b),
{
    let x: u64 = a & 0xffff_ffff;
    let y: u64 = b & 0xffff_ffff;
    proof {
        lemma_low32_bound(a);
        lemma_low32_bound(b);
        assert(x * y <= 0xffff_ffff * 0xffff_ffff) by (nonlinear_arith)
            requires
                x <= 0xffff_ffff,
                y <= 0xffff_ffff,
        ;
    }
    x * y
}

/// The zipper merge of the 128-bit value `hi:lo`, high word first.
pub fn zipper_merge(hi: u64, lo: u64) -> (r: (u64, u64))
    ensures
        r.0 == model::zipper_high(hi, lo),
        r.1 == model::zipper_low(hi, lo),
{
    let low: u64 = (((lo & 0xff00_0000) | (hi & 0xff_0000_0000)) >> 24) | (((lo
        & 0xff00_0000_0000) | (hi & 0xff_0000_0000_0000)) >> 16) | (lo & 0xff_0000) | ((lo
        & 0xff00) << 32) | ((hi & 0xff00_0000_0000_0000) >> 8) | (lo << 56);
    let high: u64 = (((hi & 0xff00_0000) | (lo & 0xff_0000_0000)) >> 24) | (hi & 0xff_0000) | ((hi
        & 0xff00_0000_0000) >> 16) | ((hi & 0xff00) << 24) | ((lo & 0xff_0000_0000_0000) >> 8) | ((
    hi & 0xff) << 48) | (lo & 0xff00_0000_0000_0000);
    proof {
        assert(low == model::zipper_low(hi, lo)) by (bit_vector)
            requires
                low == (((lo & 0xff00_0000) | (hi & 0xff_0000_0000)) >> 24) | (((lo
                    & 0xff00_0000_0000) | (hi & 0xff_0000_0000_0000)) >> 16) | (lo & 0xff_0000) | ((
                lo & 0xff00) << 32) | ((hi & 0xff00_0000_0000_0000) >> 8) | (lo << 56),
        ;
        assert(high == model::zipper_high(hi, lo)) by (bit_vector)
            requires
                high == (((hi & 0xff00_0000) | (lo & 0xff_0000_0000)) >> 24) | (hi & 0xff_0000) | ((
                hi & 0xff00_0000_0000) >> 16) | ((hi & 0xff00) << 24) | ((lo
                    & 0xff_0000_0000_0000) >> 8) | ((hi & 0xff) << 48) | (lo
                    & 0xff00_0000_0000_0000),
        ;
    }
    (high, low)
}

/// The word with each of its 32-bit halves rotated left by `n` bits.
pub fn rotate_halves(x: u64, n: u32) -> (r: u64)
    requires
        0 < n < 32,
    ensures
        r == model::rotate_halves(x, n),
{
    let half0: u32 = #[verifier::truncate]
    (x as u32);
    let half1: u32 = #[verifier::truncate]
    ((x >> 32) as u32);
    let back: u32 = 32 - n;
    let r0: u32 = (half0 << n) | (half0 >> back);
    let r1: u32 = (half1 << n) | (half1 >> back);
    (r0 as u64) | ((r1 as u64) << 32)
}

/// What a tail of `size` bytes adds to each lane of `v0`.
pub fn length_tag(size: u64) -> (r: u64)
    ensures
        r == model::length_tag(size),
{
    (size << 32) | size
}

/// Low word of a 256-bit value reduced to 128 bits.
pub fn reduce_low(a2: u64, a0: u64) -> (r: u64)
    ensures
        r == model::reduce_low(a2, a0),
{
    a0 ^ (a2 << 1) ^ (a2 << 2)
}

/// High word of a 256-bit value reduced to 128 bits.
pub fn reduce_high(a3: u64, a2: u64, a1: u64) -> (r: u64)
    ensures
        r == model::reduce_high(a3, a2, a1),
{
    let top: u64 = a3 & 0x3fff_ffff_ffff_ffff;
    a1 ^ ((top << 1) | (a2 >> 63)) ^ ((top << 2) | (a2 >> 62))
}

} // verus!
