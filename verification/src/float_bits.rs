//! IEEE-754 binary64 arithmetic on bit patterns.
//!
//! Every 64-bit floating-point value in this crate is represented by its
//! bit pattern, a `u64`. The four rounded operations the covariance
//! algorithm needs, and the conversion from an unsigned count to the
//! nearest binary64 value, are deterministic functions of their operands;
//! each is given a name below, and a trusted wrapper computes it with the
//! software IEEE-754 implementation of the `rustc_apfloat` crate, rounding
//! to nearest, ties to even — the default rounding of the hardware
//! operations.

use rustc_apfloat::ieee::Double;
use rustc_apfloat::Float;
use rustc_apfloat::Round;
use vstd::prelude::*;

verus! {

/// Bit pattern of positive infinity in binary64.
pub const INFINITY_BITS: u64 = 0x7ff0_0000_0000_0000;

/// Bit pattern of positive zero in binary64.
pub const ZERO_BITS: u64 = 0;

/// The bit pattern of the rounded binary64 sum of the values with bit
/// patterns `a` and `b`.
pub uninterp spec fn fadd_bits(a: u64, b: u64) -> u64;

/// The bit pattern of the rounded binary64 difference of the values with
/// bit patterns `a` and `b`.
pub uninterp spec fn fsub_bits(a: u64, b: u64) -> u64;

/// The bit pattern of the rounded binary64 product of the values with bit
/// patterns `a` and `b`.
pub uninterp spec fn fmul_bits(a: u64, b: u64) -> u64;

/// The bit pattern of the rounded binary64 quotient of the values with bit
/// patterns `a` and `b`.
pub uninterp spec fn fdiv_bits(a: u64, b: u64) -> u64;

/// The bit pattern of the binary64 value nearest to the unsigned integer
/// `n` (ties to even), as the cast of `n` to a 64-bit float produces.
pub uninterp spec fn float_of_u64(n: u64) -> u64;

/// Relies on rustc_apfloat's IEEE binary64 addition, round to nearest,
/// ties to even: a deterministic function of the two bit patterns.
#[verifier::external_body]
pub(crate) fn fadd(a: u64, b: u64) -> (r: u64)
    ensures
        r == fadd_bits(a, b),
{
    let x = Double::from_bits(a as u128);
    let y = Double::from_bits(b as u128);
    x.add_r(y, Round::NearestTiesToEven).value.to_bits() as u64
}

/// Relies on rustc_apfloat's IEEE binary64 subtraction, round to nearest,
/// ties to even: a deterministic function of the two bit patterns.
#[verifier::external_body]
pub(crate) fn fsub(a: u64, b: u64) -> (r: u64)
    ensures
        r == fsub_bits(a, b),
{
    let x = Double::from_bits(a as u128);
    let y = Double::from_bits(b as u128);
    x.sub_r(y, Round::NearestTiesToEven).value.to_bits() as u64
}

/// Relies on rustc_apfloat's IEEE binary64 multiplication, round to
/// nearest, ties to even: a deterministic function of the two bit patterns.
#[verifier::external_body]
pub(crate) fn fmul(a: u64, b: u64) -> (r: u64)
    ensures
        r == fmul_bits(a, b),
{
    let x = Double::from_bits(a as u128);
    let y = Double::from_bits(b as u128);
    x.mul_r(y, Round::NearestTiesToEven).value.to_bits() as u64
}

/// Relies on rustc_apfloat's IEEE binary64 division, round to nearest,
/// ties to even: a deterministic function of the two bit patterns.
#[verifier::external_body]
pub(crate) fn fdiv(a: u64, b: u64) -> (r: u64)
    ensures
        r == fdiv_bits(a, b),
{
    let x = Double::from_bits(a as u128);
    let y = Double::from_bits(b as u128);
    x.div_r(y, Round::NearestTiesToEven).value.to_bits() as u64
}

/// Relies on rustc_apfloat's conversion of an unsigned integer to the
/// nearest IEEE binary64 value (ties to even): a deterministic function of
/// `n`, and the value an integer-to-float cast produces.
#[verifier::external_body]
pub(crate) fn float_from_u64(n: u64) -> (r: u64)
    ensures
        r == float_of_u64(n),
{
    Double::from_u128_r(n as u128, Round::NearestTiesToEven).value.to_bits() as u64
}

} // verus!
