use vstd::prelude::*;

verus! {

/// The bit pattern of single-precision zero.
pub const ZERO_BITS: u32 = 0;

/// The bit pattern of single-precision one.
pub const ONE_BITS: u32 = 0x3F80_0000;

/// The largest magnitude pattern that is not a NaN (it is infinity).
pub const INFINITY_MAGNITUDE: u32 = 0x7F80_0000;

/// The pattern with its sign bit cleared.
pub open spec fn magnitude(b: u32) -> u32 {
    b & 0x7FFF_FFFFu32
}

/// The sign bit is set.
pub open spec fn is_negative(b: u32) -> bool {
    b >= 0x8000_0000u32
}

/// The pattern encodes a NaN: an all-ones exponent with a non-zero fraction.
pub open spec fn is_nan(b: u32) -> bool {
    magnitude(b) > INFINITY_MAGNITUDE
}

/// An integer that orders the non-NaN patterns as the values they encode:
/// the magnitude, negated when the sign bit is set. Both zeros map to 0.
pub open spec fn order_key(b: u32) -> int {
    if is_negative(b) {
        -(magnitude(b) as int)
    } else {
        magnitude(b) as int
    }
}

/// `a < b` as single-precision values: false whenever either is NaN.
pub open spec fn lt_spec(a: u32, b: u32) -> bool {
    !is_nan(a) && !is_nan(b) && order_key(a) < order_key(b)
}

/// `a <= b` as single-precision values: false whenever either is NaN.
pub open spec fn le_spec(a: u32, b: u32) -> bool {
    !is_nan(a) && !is_nan(b) && order_key(a) <= order_key(b)
}

/// Clears the sign bit.
pub fn magnitude_of(b: u32) -> (r: u32)
    ensures
        r == magnitude(b),
        r <= 0x7FFF_FFFFu32,
        r == if is_negative(b) { (b - 0x8000_0000u32) as u32 } else { b },
{
    let r = b & 0x7FFF_FFFFu32;
    assert((b & 0x7FFF_FFFFu32) == if b >= 0x8000_0000u32 { (b - 0x8000_0000u32) as u32 } else { b })
        by (bit_vector);
    assert((b & 0x7FFF_FFFFu32) <= 0x7FFF_FFFFu32) by (bit_vector);
    r
}

/// Whether the pattern encodes a NaN.
pub fn nan(b: u32) -> (r: bool)
    ensures
        r == is_nan(b),
{
    magnitude_of(b) > INFINITY_MAGNITUDE
}

/// The ordering key of a pattern.
pub fn key(b: u32) -> (r: i64)
    ensures
        r == order_key(b),
{
    let m = magnitude_of(b);
    if b >= 0x8000_0000u32 {
        -(m as i64)
    } else {
        m as i64
    }
}

/// Single-precision `a < b` on bit patterns.
pub fn lt(a: u32, b: u32) -> (r: bool)
    ensures
        r == lt_spec(a, b),
{
    !nan(a) && !nan(b) && key(a) < key(b)
}

/// Single-precision `a <= b` on bit patterns.
pub fn le(a: u32, b: u32) -> (r: bool)
    ensures
        r == le_spec(a, b),
{
    !nan(a) && !nan(b) && key(a) <= key(b)
}

} // verus!
