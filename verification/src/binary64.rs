//! Ordering of IEEE 754 binary64 numbers, worked out on their bit patterns.
//!
//! Every measurement in this crate is held as the 64 bits of a binary64
//! number: one sign bit, then sixty-three bits of magnitude. Among numbers of
//! one sign the magnitude bits, read as an integer, grow with the absolute
//! value, so the numeric order can be decided on integers alone.

use vstd::prelude::*;

verus! {

/// The sign bit of a bit pattern.
pub const SIGN_BIT: u64 = 0x8000_0000_0000_0000;

/// The bits of a pattern that hold exponent and fraction.
pub const MAGNITUDE_MASK: u64 = 0x7FFF_FFFF_FFFF_FFFF;

/// Positive infinity. A larger magnitude is not a number.
pub const INFINITY: u64 = 0x7FF0_0000_0000_0000;

/// Positive zero.
pub const ZERO: u64 = 0;

/// Negative infinity.
pub const NEG_INFINITY: u64 = 0xFFF0_0000_0000_0000;

/// The number 360.
pub const FULL_CIRCLE: u64 = 0x4076_8000_0000_0000;

/// Exponent and fraction of `x`, read as one integer.
pub open spec fn magnitude(x: u64) -> u64 {
    x & MAGNITUDE_MASK
}

/// Whether the sign bit of `x` is set.
pub open spec fn sign_set(x: u64) -> bool {
    x & SIGN_BIT != 0
}

/// Whether `x` is not a number.
pub open spec fn is_nan(x: u64) -> bool {
    magnitude(x) > INFINITY
}

/// The place of `x` on the number line: an integer that grows with the number
/// that `x` holds. Both zeros have place 0.
pub open spec fn rank(x: u64) -> int {
    if sign_set(x) {
        -(magnitude(x) as int)
    } else {
        magnitude(x) as int
    }
}

/// `a < b` as numbers. False as soon as one of them is not a number.
pub open spec fn less(a: u64, b: u64) -> bool {
    !is_nan(a) && !is_nan(b) && rank(a) < rank(b)
}

/// `x < 0` as numbers.
pub open spec fn negative(x: u64) -> bool {
    less(x, ZERO)
}

/// Whether `x` lies outside the closed range from 0 to 360.
pub open spec fn off_circle(x: u64) -> bool {
    less(x, ZERO) || less(FULL_CIRCLE, x)
}

/// Of two numbers at most one is below the other.
pub proof fn lemma_less_asymmetric(a: u64, b: u64)
    ensures
        less(a, b) ==> !less(b, a),
{
}

/// No number is above positive infinity, and none is below negative
/// infinity.
pub proof fn lemma_infinities_bound(x: u64)
    ensures
        !less(INFINITY, x),
        !less(x, NEG_INFINITY),
{
    assert(0x7FF0_0000_0000_0000u64 & 0x7FFF_FFFF_FFFF_FFFFu64 == 0x7FF0_0000_0000_0000u64)
        by (bit_vector);
    assert(0x7FF0_0000_0000_0000u64 & 0x8000_0000_0000_0000u64 == 0) by (bit_vector);
    assert(0xFFF0_0000_0000_0000u64 & 0x7FFF_FFFF_FFFF_FFFFu64 == 0x7FF0_0000_0000_0000u64)
        by (bit_vector);
    assert(0xFFF0_0000_0000_0000u64 & 0x8000_0000_0000_0000u64 != 0) by (bit_vector);
}

/// Decides `a < b` for two bit patterns.
pub fn less_than(a: u64, b: u64) -> (r: bool)
    ensures
        r == less(a, b),
{
    let ma: u64 = a & MAGNITUDE_MASK;
    let mb: u64 = b & MAGNITUDE_MASK;
    if ma > INFINITY || mb > INFINITY {
        return false;
    }
    let na: bool = a & SIGN_BIT != 0;
    let nb: bool = b & SIGN_BIT != 0;
    if na {
        if nb {
            mb < ma
        } else {
            ma != 0 || mb != 0
        }
    } else {
        if nb {
            false
        } else {
            ma < mb
        }
    }
}

/// Decides `x < 0`.
pub fn is_negative(x: u64) -> (r: bool)
    ensures
        r == negative(x),
{
    less_than(x, ZERO)
}

/// Decides whether `x` lies outside the closed range from 0 to 360.
pub fn is_off_circle(x: u64) -> (r: bool)
    ensures
        r == off_circle(x),
{
    less_than(x, ZERO) || less_than(FULL_CIRCLE, x)
}

} // verus!
