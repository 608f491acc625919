//! Order of IEEE 754 binary32 values, computed on their bit patterns.
//!
//! A price is stored as the 32 bits of its binary32 encoding: one sign bit,
//! eight exponent bits, twenty-three fraction bits. For values that are not
//! NaN the encoding is sign-and-magnitude, so the numeric order is the order
//! of the signed magnitudes; the two zeros are equal; a NaN is unordered
//! against everything, itself included.

use vstd::prelude::*;

verus! {

/// The sign bit of a pattern.
pub const SIGN_BIT: u32 = 0x8000_0000;

/// The pattern of positive infinity: every magnitude above it is a NaN.
pub const INFINITY_BITS: u32 = 0x7f80_0000;

/// The pattern without its sign bit.
pub open spec fn magnitude(bits: u32) -> int {
    if bits >= SIGN_BIT {
        bits - SIGN_BIT
    } else {
        bits as int
    }
}

/// Whether the pattern encodes a NaN.
pub open spec fn is_nan(bits: u32) -> bool {
    magnitude(bits) > INFINITY_BITS
}

/// An integer that orders the patterns which are not NaN as their values are
/// ordered: the magnitude, negated where the sign bit is set.
pub open spec fn order_key(bits: u32) -> int {
    if bits >= SIGN_BIT {
        -magnitude(bits)
    } else {
        magnitude(bits)
    }
}

/// `a < b` as binary32 values: false whenever either is a NaN.
pub open spec fn lt(a: u32, b: u32) -> bool {
    !is_nan(a) && !is_nan(b) && order_key(a) < order_key(b)
}

/// `a > b` as binary32 values.
pub open spec fn gt(a: u32, b: u32) -> bool {
    lt(b, a)
}

/// `a >= b` as binary32 values: false whenever either is a NaN.
pub open spec fn ge(a: u32, b: u32) -> bool {
    !is_nan(a) && !is_nan(b) && order_key(a) >= order_key(b)
}

/// Tells whether a pattern encodes a NaN.
pub fn nan(bits: u32) -> (r: bool)
    ensures
        r == is_nan(bits),
{
    let m: u32 = if bits >= SIGN_BIT {
        bits - SIGN_BIT
    } else {
        bits
    };
    m > INFINITY_BITS
}

/// Decides `a < b` on binary32 bit patterns.
pub fn less_than(a: u32, b: u32) -> (r: bool)
    ensures
        r == lt(a, b),
{
    if nan(a) || nan(b) {
        return false;
    }
    let a_negative: bool = a >= SIGN_BIT;
    let b_negative: bool = b >= SIGN_BIT;
    let am: u32 = if a_negative {
        a - SIGN_BIT
    } else {
        a
    };
    let bm: u32 = if b_negative {
        b - SIGN_BIT
    } else {
        b
    };
    if a_negative {
        if b_negative {
            am > bm
        } else {
            am != 0 || bm != 0
        }
    } else {
        if b_negative {
            false
        } else {
            am < bm
        }
    }
}

/// Decides `a > b` on binary32 bit patterns.
pub fn greater_than(a: u32, b: u32) -> (r: bool)
    ensures
        r == gt(a, b),
{
    less_than(b, a)
}

/// Decides `a >= b` on binary32 bit patterns.
pub fn at_least(a: u32, b: u32) -> (r: bool)
    ensures
        r == ge(a, b),
{
    if nan(a) || nan(b) {
        false
    } else {
        !less_than(a, b)
    }
}

} // verus!
