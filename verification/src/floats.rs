//! Arithmetic on IEEE 754 binary64 values carried as raw bit patterns.
//!
//! Coordinates in this crate are stored as the 64-bit patterns of the
//! on-disk values. The two operations the canonicalizer needs, addition
//! and subtraction, are delegated to a software implementation of the
//! same arithmetic; their results are named but not interpreted here.

use vstd::prelude::*;

verus! {

/// Bit pattern of the IEEE 754 binary64 sum of the values with bit
/// patterns `a` and `b`, rounded to nearest, ties to even.
pub uninterp spec fn add_bits(a: u64, b: u64) -> u64;

/// Bit pattern of the IEEE 754 binary64 difference of the values with
/// bit patterns `a` and `b`, rounded to nearest, ties to even.
pub uninterp spec fn sub_bits(a: u64, b: u64) -> u64;

/// Relies on rustc_apfloat::ieee::Double: IEEE 754 binary64 addition on
/// bit patterns, rounding to nearest, ties to even. The result depends
/// on the operand bits alone.
#[verifier::external_body]
pub(crate) fn fadd(a: u64, b: u64) -> (r: u64)
    ensures
        r == add_bits(a, b),
{
    let x: rustc_apfloat::ieee::Double = rustc_apfloat::Float::from_bits(a as u128);
    let y: rustc_apfloat::ieee::Double = rustc_apfloat::Float::from_bits(b as u128);
    rustc_apfloat::Float::to_bits((x + y).value) as u64
}

/// Relies on rustc_apfloat::ieee::Double: IEEE 754 binary64 subtraction
/// on bit patterns, rounding to nearest, ties to even. The result
/// depends on the operand bits alone.
#[verifier::external_body]
pub(crate) fn fsub(a: u64, b: u64) -> (r: u64)
    ensures
        r == sub_bits(a, b),
{
    let x: rustc_apfloat::ieee::Double = rustc_apfloat::Float::from_bits(a as u128);
    let y: rustc_apfloat::ieee::Double = rustc_apfloat::Float::from_bits(b as u128);
    rustc_apfloat::Float::to_bits((x - y).value) as u64
}

} // verus!
