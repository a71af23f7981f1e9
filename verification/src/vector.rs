//! Registers of two and of four 64-bit lanes, with the whole-register
//! operations that the lane-parallel backends are written in. Every
//! operation works on all lanes alike, as a vector instruction does; here
//! each is plain integer code.
use crate::model;
use crate::scalar;
use vstd::prelude::*;

verus! {

/// A register of 128 bits: two lanes, the low one first.
#[derive(Clone, Copy, Debug, PartialEq, Eq, Structural)]
pub struct V2x64(pub u64, pub u64);

impl V2x64 {
    /// Both lanes added modulo 2^64.
    pub fn add(self, other: V2x64) -> (r: V2x64)
        ensures
            r == V2x64(model::wadd(self.0, other.0), model::wadd(self.1, other.1)),
    {
        V2x64(self.0.wrapping_add(other.0), self.1.wrapping_add(other.1))
    }

    /// Both lanes combined by exclusive or.
    pub fn xor(self, other: V2x64) -> (r: V2x64)
        ensures
            r == V2x64(self.0 ^ other.0, self.1 ^ other.1),
    {
        V2x64(self.0 ^ other.0, self.1 ^ other.1)
    }

    /// In each lane, the product of the low halves of the two operands.
    pub fn mul_low32(self, other: V2x64) -> (r: V2x64)
        ensures
            r == V2x64(model::mul_low32(self.0, other.0), model::mul_low32(self.1, other.1)),
    {
        V2x64(scalar::mul_low32(self.0, other.0), scalar::mul_low32(self.1, other.1))
    }

    /// Each lane with its halves exchanged.
    pub fn rotate_by_32(self) -> (r: V2x64)
        ensures
            r == V2x64(model::swap32(self.0), model::swap32(self.1)),
    {
        V2x64(scalar::swap32(self.0), scalar::swap32(self.1))
    }

    /// Each 32-bit half of each lane rotated left by `n` bits.
    pub fn rotate_halves(self, n: u32) -> (r: V2x64)
        requires
            0 < n < 32,
        ensures
            r == V2x64(model::rotate_halves(self.0, n), model::rotate_halves(self.1, n)),
    {
        V2x64(scalar::rotate_halves(self.0, n), scalar::rotate_halves(self.1, n))
    }

    /// The sixteen bytes of the register in zipper order.
    pub fn zipper_merge(self) -> (r: V2x64)
        ensures
            r == V2x64(model::zipper_low(self.1, self.0), model::zipper_high(self.1, self.0)),
    {
        let (high, low) = scalar::zipper_merge(self.1, self.0);
        V2x64(low, high)
    }
}

/// A register of 256 bits: four lanes, the lowest first.
#[derive(Clone, Copy, Debug, PartialEq, Eq, Structural)]
pub struct V4x64(pub u64, pub u64, pub u64, pub u64);

impl V4x64 {
    /// The register that holds the four words in order.
    pub fn load(p: &[u64; 4]) -> (r: V4x64)
        ensures
            r == V4x64(p@[0], p@[1], p@[2], p@[3]),
    {
        V4x64(p[0], p[1], p[2], p[3])
    }

    /// All lanes added modulo 2^64.
    pub fn add(self, other: V4x64) -> (r: V4x64)
        ensures
            r == V4x64(
                model::wadd(self.0, other.0),
                model::wadd(self.1, other.1),
                model::wadd(self.2, other.2),
                model::wadd(self.3, other.3),
            ),
    {
        V4x64(
            self.0.wrapping_add(other.0),
            self.1.wrapping_add(other.1),
            self.2.wrapping_add(other.2),
            self.3.wrapping_add(other.3),
        )
    }

    /// All lanes combined by exclusive or.
    pub fn xor(self, other: V4x64) -> (r: V4x64)
        ensures
            r == V4x64(self.0 ^ other.0, self.1 ^ other.1, self.2 ^ other.2, self.3 ^ other.3),
    {
        V4x64(self.0 ^ other.0, self.1 ^ other.1, self.2 ^ other.2, self.3 ^ other.3)
    }

    /// In each lane, the product of the low halves of the two operands.
    pub fn mul_low32(self, other: V4x64) -> (r: V4x64)
        ensures
            r == V4x64(
                model::mul_low32(self.0, other.0),
                model::mul_low32(self.1, other.1),
                model::mul_low32(self.2, other.2),
                model::mul_low32(self.3, other.3),
            ),
    {
        V4x64(
            scalar::mul_low32(self.0, other.0),
            scalar::mul_low32(self.1, other.1),
            scalar::mul_low32(self.2, other.2),
            scalar::mul_low32(self.3, other.3),
        )
    }

    /// Each lane shifted right by 32 bits.
    pub fn shr_by_32(self) -> (r: V4x64)
        ensures
            r == V4x64(
                model::high32(self.0),
                model::high32(self.1),
                model::high32(self.2),
                model::high32(self.3),
            ),
    {
        V4x64(self.0 >> 32, self.1 >> 32, self.2 >> 32, self.3 >> 32)
    }

    /// Each lane with its halves exchanged.
    pub fn rotate_by_32(self) -> (r: V4x64)
        ensures
            r == V4x64(
                model::swap32(self.0),
                model::swap32(self.1),
                model::swap32(self.2),
                model::swap32(self.3),
            ),
    {
        V4x64(
            scalar::swap32(self.0),
            scalar::swap32(self.1),
            scalar::swap32(self.2),
            scalar::swap32(self.3),
        )
    }

    /// The register with its two 128-bit halves exchanged.
    pub fn swap_halves(self) -> (r: V4x64)
        ensures
            r == V4x64(self.2, self.3, self.0, self.1),
    {
        V4x64(self.2, self.3, self.0, self.1)
    }

    /// Each 32-bit half of each lane rotated left by `n` bits.
    pub fn rotate_halves(self, n: u32) -> (r: V4x64)
        requires
            0 < n < 32,
        ensures
            r == V4x64(
                model::rotate_halves(self.0, n),
                model::rotate_halves(self.1, n),
                model::rotate_halves(self.2, n),
                model::rotate_halves(self.3, n),
            ),
    {
        V4x64(
            scalar::rotate_halves(self.0, n),
            scalar::rotate_halves(self.1, n),
            scalar::rotate_halves(self.2, n),
            scalar::rotate_halves(self.3, n),
        )
    }

    /// The bytes of each 128-bit half of the register in zipper order.
    pub fn zipper_merge(self) -> (r: V4x64)
        ensures
            r == V4x64(
                model::zipper_low(self.1, self.0),
                model::zipper_high(self.1, self.0),
                model::zipper_low(self.3, self.2),
                model::zipper_high(self.3, self.2),
            ),
    {
        let (high0, low0) = scalar::zipper_merge(self.1, self.0);
        let (high1, low1) = scalar::zipper_merge(self.3, self.2);
        V4x64(low0, high0, low1, high1)
    }
}

} // verus!
