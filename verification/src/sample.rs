//! Arithmetic on pixel samples.
//!
//! A sample is an IEEE-754 binary32 (single-precision) value, carried
//! everywhere as its 32-bit pattern. Each of the three arithmetic
//! operations the merge needs is delegated to `rustc_apfloat`, whose
//! `Single` type implements IEEE-754 binary32 with the default rounding
//! mode (round to nearest, ties to even) — the same semantics the
//! hardware applies to native single-precision values. The result of
//! each operation is a function of the operand bit patterns alone, so
//! each gets an uninterpreted name that the contracts of the merge
//! speak of exactly.

use vstd::prelude::*;

use rustc_apfloat::ieee::Single;
use rustc_apfloat::Float;

verus! {

/// Bit pattern of the IEEE-754 binary32 sum of the values with bit
/// patterns `a` and `b` (round to nearest, ties to even).
pub uninterp spec fn add_bits(a: u32, b: u32) -> u32;

/// Bit pattern of the IEEE-754 binary32 product of the values with bit
/// patterns `a` and `b` (round to nearest, ties to even).
pub uninterp spec fn mul_bits(a: u32, b: u32) -> u32;

/// Bit pattern of the IEEE-754 binary32 quotient of the value with bit
/// pattern `a` by the value with bit pattern `b` (round to nearest,
/// ties to even).
pub uninterp spec fn div_bits(a: u32, b: u32) -> u32;

/// Relies on rustc_apfloat: `Single::add_r` with round to nearest, ties
/// to even (what the `+` operator applies) returns a value determined
/// by the two operand bit patterns alone.
#[verifier::external_body]
pub(crate) fn add_samples(a: u32, b: u32) -> (r: u32)
    ensures
        r == add_bits(a, b),
{
    (Single::from_bits(a as u128) + Single::from_bits(b as u128)).value.to_bits() as u32
}

/// Relies on rustc_apfloat: `Single::mul_r` with round to nearest, ties
/// to even (what the `*` operator applies) returns a value determined
/// by the two operand bit patterns alone.
#[verifier::external_body]
pub(crate) fn mul_samples(a: u32, b: u32) -> (r: u32)
    ensures
        r == mul_bits(a, b),
{
    (Single::from_bits(a as u128) * Single::from_bits(b as u128)).value.to_bits() as u32
}

/// Relies on rustc_apfloat: `Single::div_r` with round to nearest, ties
/// to even (what the `/` operator applies) returns a value determined
/// by the two operand bit patterns alone.
#[verifier::external_body]
pub(crate) fn div_samples(a: u32, b: u32) -> (r: u32)
    ensures
        r == div_bits(a, b),
{
    (Single::from_bits(a as u128) / Single::from_bits(b as u128)).value.to_bits() as u32
}

} // verus!
