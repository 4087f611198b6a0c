use vstd::prelude::*;
use crate::ieee::{is_nan, key, le, le_spec, magnitude, magnitude_of, nan, order_key, ZERO_BITS};

verus! {

/// The bit pattern of 1e-7, below which a coefficient counts as zero.
pub const COEFFICIENT_EPSILON_BITS: u32 = 0x33D6_BF95;

/// `|c| > 1e-7`: the coefficient counts as non-zero. False for NaN.
pub open spec fn significant(c: u32) -> bool {
    !is_nan(c) && magnitude(c) > COEFFICIENT_EPSILON_BITS
}

/// Which closed form solves `a t^3 + b t^2 + c t + d = 0`.
#[derive(Debug, Clone, Copy, PartialEq, Eq, Structural)]
pub enum Degree {
    Cubic,
    Quadratic,
    Linear,
}

/// The degree to solve at: leading coefficients no larger than 1e-7 in
/// magnitude are demoted to the next lower degree.
pub open spec fn degree_spec(a: u32, b: u32) -> Degree {
    if significant(a) {
        Degree::Cubic
    } else if significant(b) {
        Degree::Quadratic
    } else {
        Degree::Linear
    }
}

/// Whether a coefficient counts as non-zero.
pub fn is_significant(c: u32) -> (r: bool)
    ensures
        r == significant(c),
{
    !nan(c) && magnitude_of(c) > COEFFICIENT_EPSILON_BITS
}

/// The degree to solve at, from the two leading coefficients' bit patterns.
pub fn degree(a: u32, b: u32) -> (r: Degree)
    ensures
        r == degree_spec(a, b),
{
    if is_significant(a) {
        Degree::Cubic
    } else if is_significant(b) {
        Degree::Quadratic
    } else {
        Degree::Linear
    }
}

/// `t` lies in `[0, bound]`; a NaN lies nowhere.
pub open spec fn in_window(t: u32, bound: u32) -> bool {
    le_spec(ZERO_BITS, t) && le_spec(t, bound)
}

/// Root `i` comes before root `j`: it is smaller, or equal and listed first.
pub open spec fn precedes(roots: Seq<u32>, i: int, j: int) -> bool {
    order_key(roots[i]) < order_key(roots[j]) || (order_key(roots[i]) == order_key(roots[j]) && i <= j)
}

/// Root `i` is the earliest of the candidates that lie in `[0, bound]`.
pub open spec fn is_earliest(roots: Seq<u32>, bound: u32, i: int) -> bool {
    &&& 0 <= i < roots.len()
    &&& in_window(roots[i], bound)
    &&& forall|j: int| 0 <= j < roots.len() && #[trigger] in_window(roots[j], bound) ==> precedes(roots, i, j)
}

/// Whether a root lies in `[0, bound]`. Roots outside are rejected, not clamped.
pub fn root_in_window(t: u32, bound: u32) -> (r: bool)
    ensures
        r == in_window(t, bound),
{
    le(ZERO_BITS, t) && le(t, bound)
}

/// The position of the smallest candidate root lying in `[0, bound]` (the
/// first one listed among equal ones), or `None` when no candidate lies there.
pub fn earliest_in_window(roots: &[u32], bound: u32) -> (r: Option<usize>)
    ensures
        match r {
            Some(i) => is_earliest(roots@, bound, i as int),
            None => forall|j: int| 0 <= j < roots@.len() ==> !#[trigger] in_window(roots@[j], bound),
        },
{
    let mut best: Option<usize> = None;
    let mut i: usize = 0;
    while i < roots.len()
        invariant
            i <= roots@.len(),
            match best {
                Some(b) => {
                    &&& b < i
                    &&& in_window(roots@[b as int], bound)
                    &&& forall|j: int| 0 <= j < i && #[trigger] in_window(roots@[j], bound) ==> precedes(roots@, b as int, j)
                },
                None => forall|j: int| 0 <= j < i ==> !#[trigger] in_window(roots@[j], bound),
            },
        decreases roots@.len() - i,
    {
        if root_in_window(roots[i], bound) {
            match best {
                None => {
                    best = Some(i);
                },
                Some(b) => {
                    if key(roots[i]) < key(roots[b]) {
                        best = Some(i);
                    }
                },
            }
        }
        i = i + 1;
    }
    best
}

} // verus!
