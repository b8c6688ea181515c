//! Bit-pattern models for floating-point keys.
//!
//! Native `f32`/`f64` equality is not total under IEEE-754 (NaN is not equal
//! to itself) and their hashing is undefined for NaN, so raw floats cannot be
//! store keys, and floating-point values cannot appear in verified code at
//! all. These types hold the raw bit pattern of one float as a plain unsigned
//! integer; equality and hashing operate on that pattern, not on the numeric
//! value. Consequences, by design: every NaN bit pattern is equal to itself
//! but generally unequal to a differently encoded NaN, and `+0.0` and `-0.0`
//! are unequal. Converting a float to and from its bits happens outside the
//! verified library.

use vstd::prelude::*;

use crate::value::InternValue;

verus! {

/// The bit pattern of one `f64`, usable as a store key: equality and hash go
/// over the 64 raw bits.
#[derive(Clone, Copy, Debug, PartialEq, Eq, Hash, Structural)]
pub struct FloatBits64 {
    /// The raw IEEE-754 bit pattern.
    pub bits: u64,
}

impl FloatBits64 {
    /// Wraps a raw 64-bit pattern.
    pub fn from_bits(bits: u64) -> (r: Self)
        ensures
            r.bits == bits,
    {
        FloatBits64 { bits }
    }

    /// The raw bit pattern.
    pub fn to_bits(self) -> (r: u64)
        ensures
            r == self.bits,
    {
        self.bits
    }
}

impl InternValue for FloatBits64 {
    open spec fn same(&self, other: &FloatBits64) -> bool {
        self.bits == other.bits
    }

    proof fn lemma_same_reflexive(x: &FloatBits64) {
    }

    proof fn lemma_same_symmetric(x: &FloatBits64, y: &FloatBits64) {
    }

    proof fn lemma_same_transitive(x: &FloatBits64, y: &FloatBits64, z: &FloatBits64) {
    }

    fn value_eq(&self, other: &FloatBits64) -> (r: bool) {
        self.bits == other.bits
    }

    fn duplicate(&self) -> (r: FloatBits64) {
        *self
    }
}

/// The bit pattern of one `f32`, usable as a store key: equality and hash go
/// over the 32 raw bits.
#[derive(Clone, Copy, Debug, PartialEq, Eq, Hash, Structural)]
pub struct FloatBits32 {
    /// The raw IEEE-754 bit pattern.
    pub bits: u32,
}

impl FloatBits32 {
    /// Wraps a raw 32-bit pattern.
    pub fn from_bits(bits: u32) -> (r: Self)
        ensures
            r.bits == bits,
    {
        FloatBits32 { bits }
    }

    /// The raw bit pattern.
    pub fn to_bits(self) -> (r: u32)
        ensures
            r == self.bits,
    {
        self.bits
    }
}

impl InternValue for FloatBits32 {
    open spec fn same(&self, other: &FloatBits32) -> bool {
        self.bits == other.bits
    }

    proof fn lemma_same_reflexive(x: &FloatBits32) {
    }

    proof fn lemma_same_symmetric(x: &FloatBits32, y: &FloatBits32) {
    }

    proof fn lemma_same_transitive(x: &FloatBits32, y: &FloatBits32, z: &FloatBits32) {
    }

    fn value_eq(&self, other: &FloatBits32) -> (r: bool) {
        self.bits == other.bits
    }

    fn duplicate(&self) -> (r: FloatBits32) {
        *self
    }
}

/// Two wrapped 64-bit floats are equal, as values and under the store's
/// equality, exactly when their bit patterns match: every NaN pattern is
/// self-equal, differently encoded NaNs differ, and the two signed zeros
/// differ.
pub proof fn lemma_bits64_equality(x: FloatBits64, y: FloatBits64)
    ensures
        x.same(&y) <==> x.bits == y.bits,
        (x == y) <==> x.bits == y.bits,
{
}

/// Two wrapped 32-bit floats are equal, as values and under the store's
/// equality, exactly when their bit patterns match.
pub proof fn lemma_bits32_equality(x: FloatBits32, y: FloatBits32)
    ensures
        x.same(&y) <==> x.bits == y.bits,
        (x == y) <==> x.bits == y.bits,
{
}

} // verus!
