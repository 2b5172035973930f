//! Single-precision numbers by bit pattern.
//!
//! A `Scalar` is an IEEE-754 binary32 value held as the `u32` of its bits.
//! Arithmetic is done in software: sums, products and quotients by
//! `rustc_apfloat`, rounding to nearest with ties to even, and square roots by
//! `softfloat`. The five functions at the end of this file are the only
//! places where the two crates are called, and what they return is taken on
//! trust.

use rustc_apfloat::ieee::Single;
use rustc_apfloat::Float;
use vstd::prelude::*;

verus! {

/// The binary32 sum of the numbers with bit patterns `a` and `b`, as
/// `rustc_apfloat` computes it for `Single`.
pub uninterp spec fn add_bits(a: u32, b: u32) -> u32;

/// The binary32 difference of the number with bit pattern `a` and the one
/// with bit pattern `b`, as `rustc_apfloat` computes it for `Single`.
pub uninterp spec fn sub_bits(a: u32, b: u32) -> u32;

/// The binary32 product of the numbers with bit patterns `a` and `b`, as
/// `rustc_apfloat` computes it for `Single`.
pub uninterp spec fn mul_bits(a: u32, b: u32) -> u32;

/// The binary32 quotient of the number with bit pattern `a` by the one with
/// bit pattern `b`, as `rustc_apfloat` computes it for `Single`.
pub uninterp spec fn div_bits(a: u32, b: u32) -> u32;

/// The binary32 square root of the number with bit pattern `a`, as
/// `softfloat::F32::sqrt` computes it.
pub uninterp spec fn sqrt_bits(a: u32) -> u32;

/// Bit pattern of `1.0`.
pub const ONE_BITS: u32 = 0x3f80_0000;

/// Bit pattern of `-1.0`.
pub const NEG_ONE_BITS: u32 = 0xbf80_0000;

/// An IEEE-754 binary32 number, held by its bit pattern.
#[derive(Clone, Copy, Debug)]
pub struct Scalar {
    pub bits: u32,
}

impl Scalar {
    /// Positive zero.
    pub open spec fn spec_zero() -> Scalar {
        Scalar { bits: 0 }
    }

    /// The number `1.0`.
    pub open spec fn spec_one() -> Scalar {
        Scalar { bits: ONE_BITS }
    }

    /// The number `-1.0`.
    pub open spec fn spec_neg_one() -> Scalar {
        Scalar { bits: NEG_ONE_BITS }
    }

    /// Positive zero.
    #[verifier::when_used_as_spec(spec_zero)]
    pub fn zero() -> (r: Scalar)
        ensures
            r == Scalar::spec_zero(),
    {
        Scalar { bits: 0 }
    }

    /// The number `1.0`.
    #[verifier::when_used_as_spec(spec_one)]
    pub fn one() -> (r: Scalar)
        ensures
            r == Scalar::spec_one(),
    {
        Scalar { bits: ONE_BITS }
    }

    /// The number `-1.0`.
    #[verifier::when_used_as_spec(spec_neg_one)]
    pub fn neg_one() -> (r: Scalar)
        ensures
            r == Scalar::spec_neg_one(),
    {
        Scalar { bits: NEG_ONE_BITS }
    }

    /// The sum, rounded to binary32.
    pub open spec fn spec_add(self, rhs: Scalar) -> Scalar {
        Scalar { bits: add_bits(self.bits, rhs.bits) }
    }

    /// The difference, rounded to binary32.
    pub open spec fn spec_sub(self, rhs: Scalar) -> Scalar {
        Scalar { bits: sub_bits(self.bits, rhs.bits) }
    }

    /// The product, rounded to binary32.
    pub open spec fn spec_mul(self, rhs: Scalar) -> Scalar {
        Scalar { bits: mul_bits(self.bits, rhs.bits) }
    }

    /// The quotient, rounded to binary32.
    pub open spec fn spec_div(self, rhs: Scalar) -> Scalar {
        Scalar { bits: div_bits(self.bits, rhs.bits) }
    }

    /// The square root, rounded to binary32.
    pub open spec fn spec_sqrt(self) -> Scalar {
        Scalar { bits: sqrt_bits(self.bits) }
    }

    /// The number with the given bit pattern.
    pub fn from_bits(bits: u32) -> (r: Scalar)
        ensures
            r.bits == bits,
    {
        Scalar { bits }
    }

    /// The bit pattern of the number.
    pub fn to_bits(self) -> (r: u32)
        ensures
            r == self.bits,
    {
        self.bits
    }

    /// `self + rhs`.
    #[verifier::when_used_as_spec(spec_add)]
    pub fn add(self, rhs: Scalar) -> (r: Scalar)
        ensures
            r == self.spec_add(rhs),
    {
        Scalar { bits: soft_add(self.bits, rhs.bits) }
    }

    /// `self - rhs`.
    #[verifier::when_used_as_spec(spec_sub)]
    pub fn sub(self, rhs: Scalar) -> (r: Scalar)
        ensures
            r == self.spec_sub(rhs),
    {
        Scalar { bits: soft_sub(self.bits, rhs.bits) }
    }

    /// `self * rhs`.
    #[verifier::when_used_as_spec(spec_mul)]
    pub fn mul(self, rhs: Scalar) -> (r: Scalar)
        ensures
            r == self.spec_mul(rhs),
    {
        Scalar { bits: soft_mul(self.bits, rhs.bits) }
    }

    /// `self / rhs`. Division by zero is not an error: it yields an infinity
    /// or a NaN, as the format prescribes.
    #[verifier::when_used_as_spec(spec_div)]
    pub fn div(self, rhs: Scalar) -> (r: Scalar)
        ensures
            r == self.spec_div(rhs),
    {
        Scalar { bits: soft_div(self.bits, rhs.bits) }
    }

    /// The square root of `self`; a NaN for a negative number.
    #[verifier::when_used_as_spec(spec_sqrt)]
    pub fn sqrt(self) -> (r: Scalar)
        ensures
            r == self.spec_sqrt(),
    {
        Scalar { bits: soft_sqrt(self.bits) }
    }
}

/// Calls `add` of `rustc_apfloat::ieee::Single`, which rounds to nearest with
/// ties to even, and drops the status flags. Trusted: the bits that come
/// back are a function of the two operand bit patterns alone, named
/// `add_bits`.
#[verifier::external_body]
fn soft_add(a: u32, b: u32) -> (r: u32)
    ensures
        r == add_bits(a, b),
{
    (Single::from_bits(a as u128) + Single::from_bits(b as u128)).value.to_bits() as u32
}

/// Calls `sub` of `rustc_apfloat::ieee::Single`, which rounds to nearest with
/// ties to even, and drops the status flags. Trusted: the bits that come
/// back are a function of the two operand bit patterns alone, named
/// `sub_bits`.
#[verifier::external_body]
fn soft_sub(a: u32, b: u32) -> (r: u32)
    ensures
        r == sub_bits(a, b),
{
    (Single::from_bits(a as u128) - Single::from_bits(b as u128)).value.to_bits() as u32
}

/// Calls `mul` of `rustc_apfloat::ieee::Single`, which rounds to nearest with
/// ties to even, and drops the status flags. Trusted: the bits that come
/// back are a function of the two operand bit patterns alone, named
/// `mul_bits`.
#[verifier::external_body]
fn soft_mul(a: u32, b: u32) -> (r: u32)
    ensures
        r == mul_bits(a, b),
{
    (Single::from_bits(a as u128) * Single::from_bits(b as u128)).value.to_bits() as u32
}

/// Calls `div` of `rustc_apfloat::ieee::Single`, which rounds to nearest with
/// ties to even, and drops the status flags. Trusted: the bits that come
/// back are a function of the two operand bit patterns alone, named
/// `div_bits`.
#[verifier::external_body]
fn soft_div(a: u32, b: u32) -> (r: u32)
    ensures
        r == div_bits(a, b),
{
    (Single::from_bits(a as u128) / Single::from_bits(b as u128)).value.to_bits() as u32
}

/// Calls `softfloat::F32::sqrt`. Trusted: the bits that come back are a
/// function of the operand's bit pattern alone, named `sqrt_bits`.
#[verifier::external_body]
fn soft_sqrt(a: u32) -> (r: u32)
    ensures
        r == sqrt_bits(a),
{
    softfloat::F32::from_bits(a).sqrt().to_bits()
}

} // verus!
