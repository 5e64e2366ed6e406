//! A model of IEEE-754 binary64 samples as their raw bit patterns.
//!
//! The remote location service delivers double-precision readings; this
//! library receives each reading as the `u64` bit pattern of that double
//! (what `f64::to_bits` returns) and reasons about it with integers.
//! A bit pattern splits into a sign bit and a 63-bit magnitude. For the
//! patterns that are not NaN, ordering by `numeric_key` (magnitude,
//! negated for negative sign) agrees exactly with the numeric order of
//! the doubles themselves; both zero patterns (positive and negative
//! sign) get key 0, so they compare equal, as the doubles do.

use vstd::prelude::*;

verus! {

/// The sign bit of a binary64 pattern.
pub const SIGN_BIT: u64 = 0x8000_0000_0000_0000;

/// Magnitude of the infinity patterns; any greater magnitude is a NaN.
pub const INF_MAGNITUDE: u64 = 0x7ff0_0000_0000_0000;

/// Bit pattern of the double with value minus one (the exact
/// "not available" sentinel used by the remote service).
pub const NEG_ONE_BITS: u64 = 0xbff0_0000_0000_0000;

/// Bit pattern of the double with value 90 (latitude upper bound).
pub const LAT_MAX_BITS: u64 = 0x4056_8000_0000_0000;

/// Bit pattern of the double with value minus 90 (latitude lower bound).
pub const LAT_MIN_BITS: u64 = 0xc056_8000_0000_0000;

/// Bit pattern of the double with value 180 (longitude upper bound).
pub const LON_MAX_BITS: u64 = 0x4066_8000_0000_0000;

/// Bit pattern of the double with value minus 180 (longitude lower bound).
pub const LON_MIN_BITS: u64 = 0xc066_8000_0000_0000;

/// Bit pattern of the double with value 360 (heading upper bound).
pub const HEADING_MAX_BITS: u64 = 0x4076_8000_0000_0000;

/// Bit pattern of the double with value zero (positive sign).
pub const ZERO_BITS: u64 = 0;

/// Bit pattern of the largest double the remote service documents as a
/// disconnection sentinel: minus 17 times ten to the 307th. Every value
/// at or below it also counts as the sentinel.
pub const SENTINEL_FLOOR_BITS: u64 = 0xffee_42d1_3077_3b76;

/// Whether the sign bit of the pattern is set.
pub open spec fn is_negative(bits: u64) -> bool {
    bits >= SIGN_BIT
}

/// The pattern with the sign bit cleared.
pub open spec fn magnitude(bits: u64) -> u64 {
    if is_negative(bits) {
        (bits - SIGN_BIT) as u64
    } else {
        bits
    }
}

/// The pattern encodes a finite double (zero, subnormal or normal).
pub open spec fn is_finite(bits: u64) -> bool {
    magnitude(bits) < INF_MAGNITUDE
}

/// The pattern encodes a NaN.
pub open spec fn is_nan(bits: u64) -> bool {
    magnitude(bits) > INF_MAGNITUDE
}

/// Order key of a pattern: for the patterns that are not NaN, comparing
/// keys agrees with comparing the encoded doubles, and keys are equal
/// exactly when the doubles are numerically equal (in particular the two
/// zero patterns share key 0).
pub open spec fn numeric_key(bits: u64) -> int {
    if is_negative(bits) {
        -(magnitude(bits) as int)
    } else {
        magnitude(bits) as int
    }
}

/// The encoded double is finite.
pub fn bits_is_finite(bits: u64) -> (r: bool)
    ensures
        r == is_finite(bits),
{
    let m: u64 = if bits >= SIGN_BIT {
        bits - SIGN_BIT
    } else {
        bits
    };
    m < INF_MAGNITUDE
}

/// The double encoded by `a` is at most the double encoded by `b`,
/// compared through the order keys.
pub fn bits_le(a: u64, b: u64) -> (r: bool)
    ensures
        r == (numeric_key(a) <= numeric_key(b)),
{
    let neg_a = a >= SIGN_BIT;
    let neg_b = b >= SIGN_BIT;
    let mag_a: u64 = if neg_a {
        a - SIGN_BIT
    } else {
        a
    };
    let mag_b: u64 = if neg_b {
        b - SIGN_BIT
    } else {
        b
    };
    if neg_a {
        if neg_b {
            mag_a >= mag_b
        } else {
            true
        }
    } else {
        if neg_b {
            mag_a == 0 && mag_b == 0
        } else {
            mag_a <= mag_b
        }
    }
}

} // verus!
