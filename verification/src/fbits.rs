//! Arithmetic on IEEE 754 binary64 floats carried as bit patterns.
//!
//! The machine stores a float as its raw 64-bit pattern. Each operation
//! below is computed by `rustc_apfloat`'s software implementation of
//! IEEE 754 binary64, which works on bit patterns alone, so each result
//! is a function of the argument bits and of nothing else.

use vstd::prelude::*;
use rustc_apfloat::Float;
use rustc_apfloat::ieee::Double;

verus! {

/// Bit pattern of the IEEE 754 binary64 sum of the floats with bit
/// patterns `a` and `b`, rounded to nearest, ties to even.
pub uninterp spec fn f64_add(a: u64, b: u64) -> u64;

/// Bit pattern of the binary64 difference `a - b`, rounded to nearest,
/// ties to even.
pub uninterp spec fn f64_sub(a: u64, b: u64) -> u64;

/// Bit pattern of the binary64 product `a * b`, rounded to nearest,
/// ties to even.
pub uninterp spec fn f64_mul(a: u64, b: u64) -> u64;

/// Bit pattern of the binary64 quotient `a / b`, rounded to nearest,
/// ties to even; division by zero yields an infinity or NaN per
/// IEEE 754, never an error.
pub uninterp spec fn f64_div(a: u64, b: u64) -> u64;

/// Bit pattern of the binary64 remainder `a % b` with C `fmod`
/// semantics (the sign follows the dividend).
pub uninterp spec fn f64_rem(a: u64, b: u64) -> u64;

/// Bit pattern of the binary64 float nearest to the integer `v`,
/// ties to even.
pub uninterp spec fn f64_of_i64(v: i64) -> u64;

/// The integer that the float with bit pattern `a` converts to:
/// truncated toward zero, saturated at the `i64` range, and zero for
/// NaN.
pub uninterp spec fn i64_of_f64(a: u64) -> i64;

/// Relies on rustc_apfloat's `Double` addition (round to nearest, ties
/// to even): the result depends on the two bit patterns alone.
#[verifier::external_body]
pub(crate) fn f64_add_bits(a: u64, b: u64) -> (r: u64)
    ensures
        r == f64_add(a, b),
{
    let x = Double::from_bits(a as u128);
    let y = Double::from_bits(b as u128);
    (x + y).value.to_bits() as u64
}

/// Relies on rustc_apfloat's `Double` subtraction (round to nearest,
/// ties to even): the result depends on the two bit patterns alone.
#[verifier::external_body]
pub(crate) fn f64_sub_bits(a: u64, b: u64) -> (r: u64)
    ensures
        r == f64_sub(a, b),
{
    let x = Double::from_bits(a as u128);
    let y = Double::from_bits(b as u128);
    (x - y).value.to_bits() as u64
}

/// Relies on rustc_apfloat's `Double` multiplication (round to nearest,
/// ties to even): the result depends on the two bit patterns alone.
#[verifier::external_body]
pub(crate) fn f64_mul_bits(a: u64, b: u64) -> (r: u64)
    ensures
        r == f64_mul(a, b),
{
    let x = Double::from_bits(a as u128);
    let y = Double::from_bits(b as u128);
    (x * y).value.to_bits() as u64
}

/// Relies on rustc_apfloat's `Double` division (round to nearest, ties
/// to even): the result depends on the two bit patterns alone.
#[verifier::external_body]
pub(crate) fn f64_div_bits(a: u64, b: u64) -> (r: u64)
    ensures
        r == f64_div(a, b),
{
    let x = Double::from_bits(a as u128);
    let y = Double::from_bits(b as u128);
    (x / y).value.to_bits() as u64
}

/// Relies on rustc_apfloat's `Double` remainder, whose `%` is C `fmod`:
/// the result depends on the two bit patterns alone.
#[verifier::external_body]
pub(crate) fn f64_rem_bits(a: u64, b: u64) -> (r: u64)
    ensures
        r == f64_rem(a, b),
{
    let x = Double::from_bits(a as u128);
    let y = Double::from_bits(b as u128);
    (x % y).value.to_bits() as u64
}

/// Relies on rustc_apfloat's `Double::from_i128` (round to nearest,
/// ties to even): the result depends on the integer alone.
#[verifier::external_body]
pub(crate) fn f64_of_i64_bits(v: i64) -> (r: u64)
    ensures
        r == f64_of_i64(v),
{
    Double::from_i128(v as i128).value.to_bits() as u64
}

/// Relies on rustc_apfloat's `Double::to_i128`, which rounds toward
/// zero and, as its documentation states, returns zero for NaN and the
/// minimal or maximal value on overflow: the result depends on the bit
/// pattern alone.
#[verifier::external_body]
pub(crate) fn i64_of_f64_bits(a: u64) -> (r: i64)
    ensures
        r == i64_of_f64(a),
{
    Double::from_bits(a as u128).to_i128(64).value as i64
}

} // verus!
