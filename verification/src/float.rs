//! Double-precision arithmetic on bit patterns. The interpreter works on
//! the bit patterns of doubles so that every operation is a function of
//! plain integer values; the operations themselves are carried out by
//! `rustc_apfloat`, the Rust port of the float semantics native code
//! generators use.

use vstd::prelude::*;
use rustc_apfloat::Float;
use rustc_apfloat::ieee::Double;

verus! {

/// The outcome of comparing two doubles: a partial order, since a
/// not-a-number value compares with nothing.
#[derive(Debug, Clone, Copy, PartialEq, Eq, Structural)]
pub enum FloatOrder {
    Less,
    Equal,
    Greater,
    Unordered,
}

pub uninterp spec fn f64_add_bits(a: u64, b: u64) -> u64;

pub uninterp spec fn f64_sub_bits(a: u64, b: u64) -> u64;

pub uninterp spec fn f64_mul_bits(a: u64, b: u64) -> u64;

pub uninterp spec fn f64_div_bits(a: u64, b: u64) -> u64;

pub uninterp spec fn f64_rem_bits(a: u64, b: u64) -> u64;

pub uninterp spec fn f64_cmp_bits(a: u64, b: u64) -> FloatOrder;

pub uninterp spec fn f64_of_i64_bits(v: i64) -> u64;

/// Relies on rustc_apfloat's `Double` addition: the sum's bit pattern
/// depends on the two operand bit patterns alone.
#[verifier::external_body]
pub fn f64_add(a: u64, b: u64) -> (r: u64)
    ensures
        r == f64_add_bits(a, b),
{
    (Double::from_bits(a as u128) + Double::from_bits(b as u128)).value.to_bits() as u64
}

/// Relies on rustc_apfloat's `Double` subtraction: the difference's bit
/// pattern depends on the two operand bit patterns alone.
#[verifier::external_body]
pub fn f64_sub(a: u64, b: u64) -> (r: u64)
    ensures
        r == f64_sub_bits(a, b),
{
    (Double::from_bits(a as u128) - Double::from_bits(b as u128)).value.to_bits() as u64
}

/// Relies on rustc_apfloat's `Double` multiplication: the product's bit
/// pattern depends on the two operand bit patterns alone.
#[verifier::external_body]
pub fn f64_mul(a: u64, b: u64) -> (r: u64)
    ensures
        r == f64_mul_bits(a, b),
{
    (Double::from_bits(a as u128) * Double::from_bits(b as u128)).value.to_bits() as u64
}

/// Relies on rustc_apfloat's `Double` division: the quotient's bit pattern
/// depends on the two operand bit patterns alone.
#[verifier::external_body]
pub fn f64_div(a: u64, b: u64) -> (r: u64)
    ensures
        r == f64_div_bits(a, b),
{
    (Double::from_bits(a as u128) / Double::from_bits(b as u128)).value.to_bits() as u64
}

/// Relies on rustc_apfloat's `Double` remainder (the C `fmod`, which the
/// native float-remainder instruction computes): the result's bit pattern
/// depends on the two operand bit patterns alone.
#[verifier::external_body]
pub fn f64_rem(a: u64, b: u64) -> (r: u64)
    ensures
        r == f64_rem_bits(a, b),
{
    (Double::from_bits(a as u128) % Double::from_bits(b as u128)).value.to_bits() as u64
}

/// Relies on rustc_apfloat's `Double` comparison, one arm per variant of
/// the ordering it yields; not-a-number operands compare unordered. The
/// outcome depends on the two operand bit patterns alone.
#[verifier::external_body]
pub fn f64_cmp(a: u64, b: u64) -> (r: FloatOrder)
    ensures
        r == f64_cmp_bits(a, b),
{
    match Double::from_bits(a as u128).partial_cmp(&Double::from_bits(b as u128)) {
        Some(core::cmp::Ordering::Less) => FloatOrder::Less,
        Some(core::cmp::Ordering::Equal) => FloatOrder::Equal,
        Some(core::cmp::Ordering::Greater) => FloatOrder::Greater,
        None => FloatOrder::Unordered,
    }
}

/// Relies on rustc_apfloat's signed-integer-to-`Double` conversion with
/// round-to-nearest-even, the rounding the native conversion instruction
/// uses. The result depends on the integer value alone.
#[verifier::external_body]
pub fn f64_of_i64(v: i64) -> (r: u64)
    ensures
        r == f64_of_i64_bits(v),
{
    Double::from_i128(v as i128).value.to_bits() as u64
}

/// The sign-bit mask of a double's bit pattern.
pub const F64_SIGN_BIT: u64 = 0x8000000000000000;

/// Negation of a double: the native negate instruction flips the sign bit
/// and changes nothing else, so it needs no outside arithmetic.
pub fn f64_neg(a: u64) -> (r: u64)
    ensures
        r == a ^ F64_SIGN_BIT,
{
    a ^ F64_SIGN_BIT
}

} // verus!
