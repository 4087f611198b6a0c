use vstd::prelude::*;
use crate::ieee::{is_nan, is_negative, le, le_spec, lt, magnitude, order_key, ONE_BITS, ZERO_BITS};

verus! {

/// Component `i` ranks above component `j`: it is larger, or equal and has the
/// smaller index.
pub open spec fn ranks_above(c: Seq<u32>, i: int, j: int) -> bool {
    order_key(c[i]) > order_key(c[j]) || (order_key(c[i]) == order_key(c[j]) && i < j)
}

/// `(p, q)` are the two highest-ranked components of `c`, `p` first.
pub open spec fn top_two(c: Seq<u32>, p: int, q: int) -> bool {
    let rest = 3 - p - q;
    &&& 0 <= p < 3
    &&& 0 <= q < 3
    &&& p != q
    &&& ranks_above(c, p, q)
    &&& ranks_above(c, q, rest)
}

/// The two axes onto which a contact test projects, from the bit patterns of
/// the reference edge vector's components: the two largest components, larger
/// first, ties going to the lower axis index. The axes differ even when a
/// component is NaN.
pub fn projection_axes(c: [u32; 3]) -> (r: (usize, usize))
    ensures
        r.0 < 3,
        r.1 < 3,
        r.0 != r.1,
        !is_nan(c[0]) && !is_nan(c[1]) && !is_nan(c[2]) ==> top_two(c@, r.0 as int, r.1 as int),
{
    let xy = lt(c[0], c[1]);
    let xz = lt(c[0], c[2]);
    let yz = lt(c[1], c[2]);
    if xy {
        if xz {
            if yz {
                (2, 1)
            } else {
                (1, 2)
            }
        } else {
            (1, 0)
        }
    } else {
        if xz {
            (2, 0)
        } else if yz {
            (0, 2)
        } else {
            (0, 1)
        }
    }
}

/// Weights `(r, s)` place a point inside the triangle: `r >= 0`, `s >= 0` and
/// `r + s <= 1`, where `sum` is the computed `r + s`. Any NaN classifies outside.
pub open spec fn inside_spec(r: u32, s: u32, sum: u32) -> bool {
    le_spec(ZERO_BITS, r) && le_spec(ZERO_BITS, s) && le_spec(sum, ONE_BITS)
}

/// Classifies barycentric-like weights against the triangle.
pub fn inside_triangle(r: u32, s: u32, sum: u32) -> (b: bool)
    ensures
        b == inside_spec(r, s, sum),
{
    le(ZERO_BITS, r) && le(ZERO_BITS, s) && le(sum, ONE_BITS)
}

/// A strictly negative weight classifies outside, whatever the other weight.
pub proof fn lemma_negative_weight_outside(r: u32, s: u32, sum: u32)
    requires
        (is_negative(r) && magnitude(r) > 0) || (is_negative(s) && magnitude(s) > 0),
    ensures
        !inside_spec(r, s, sum),
{
}

/// Weights that are both non-negative, with a sum of at most one, classify inside.
pub proof fn lemma_convex_weights_inside(r: u32, s: u32, sum: u32)
    requires
        !is_nan(r) && !is_negative(r),
        !is_nan(s) && !is_negative(s),
        !is_nan(sum) && order_key(sum) <= order_key(ONE_BITS),
    ensures
        inside_spec(r, s, sum),
{
    assert(0x3F80_0000u32 & 0x7FFF_FFFFu32 == 0x3F80_0000u32) by (bit_vector);
    assert(0u32 & 0x7FFF_FFFFu32 == 0u32) by (bit_vector);
}

} // verus!
