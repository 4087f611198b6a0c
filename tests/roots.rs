use rigid_ccd::ieee::{key, le, lt, nan, ONE_BITS, ZERO_BITS};
use rigid_ccd::roots::{degree, earliest_in_window, is_significant, root_in_window, Degree, COEFFICIENT_EPSILON_BITS};

fn b(x: f32) -> u32 {
    x.to_bits()
}

#[test]
fn bit_constants_match_their_values() {
    assert_eq!(ZERO_BITS, 0.0f32.to_bits());
    assert_eq!(ONE_BITS, 1.0f32.to_bits());
    assert_eq!(COEFFICIENT_EPSILON_BITS, 1e-7f32.to_bits());
}

#[test]
fn bit_order_follows_value_order() {
    let vals = [-3.5f32, -1.0, -1e-30, -0.0, 0.0, 1e-30, 0.2, 0.8, 1.0, 7.0, f32::INFINITY];
    for &x in vals.iter() {
        for &y in vals.iter() {
            assert_eq!(lt(b(x), b(y)), x < y, "{} < {}", x, y);
            assert_eq!(le(b(x), b(y)), x <= y, "{} <= {}", x, y);
        }
    }
    assert_eq!(key(b(-0.0)), key(b(0.0)));
    assert_eq!(key(b(1.0)), 0x3F80_0000);
    assert_eq!(key(b(-1.0)), -0x3F80_0000);
}

#[test]
fn nan_compares_false() {
    let n = f32::NAN.to_bits();
    assert!(nan(n));
    assert!(!nan(b(f32::INFINITY)));
    assert!(!lt(n, b(1.0)));
    assert!(!le(b(0.0), n));
    assert!(!root_in_window(n, b(1.0)));
}

#[test]
fn coefficients_at_or_below_threshold_are_demoted() {
    assert_eq!(degree(b(8.0), b(-12.0)), Degree::Cubic);
    assert_eq!(degree(b(-2e-7), b(0.0)), Degree::Cubic);
    assert_eq!(degree(b(1e-7), b(3.0)), Degree::Quadratic);
    assert_eq!(degree(b(0.0), b(-1e-7)), Degree::Linear);
    assert_eq!(degree(b(0.0), b(0.0)), Degree::Linear);
    assert_eq!(degree(f32::NAN.to_bits(), b(1.0)), Degree::Quadratic);
    assert!(!is_significant(b(1e-7)));
    assert!(is_significant(b(-1.5e-7)));
}

#[test]
fn quadratic_roots_give_smaller_valid_root() {
    // roots of (t - 0.2)(t - 0.8), listed larger first as the quadratic formula does
    let roots = [b(0.8), b(0.2)];
    assert_eq!(earliest_in_window(&roots, b(1.0)), Some(1));
    assert_eq!(f32::from_bits(roots[1]), 0.2);
}

#[test]
fn shrunken_bound_rejects_later_roots() {
    let roots = [b(0.8), b(0.2)];
    assert_eq!(earliest_in_window(&roots, b(0.5)), Some(1));
    assert_eq!(earliest_in_window(&roots, b(0.1)), None);
}

#[test]
fn roots_outside_window_are_rejected_not_clamped() {
    let roots = [b(-0.1), b(1.5), b(2.0)];
    assert_eq!(earliest_in_window(&roots, b(1.0)), None);
    assert!(!root_in_window(b(-1e-9), b(1.0)));
    assert!(!root_in_window(b(1.0000001), b(1.0)));
    assert!(root_in_window(b(1.0), b(1.0)));
    assert!(root_in_window(b(-0.0), b(1.0)));
}

#[test]
fn cubic_candidates_pick_smallest_in_window() {
    let roots = [b(0.9), b(-0.3), b(0.4)];
    assert_eq!(earliest_in_window(&roots, b(1.0)), Some(2));
    let roots = [b(0.5), b(0.5), b(0.7)];
    assert_eq!(earliest_in_window(&roots, b(1.0)), Some(0));
    let roots = [b(1.2), b(0.6), b(0.1)];
    assert_eq!(earliest_in_window(&roots, b(1.0)), Some(2));
}

#[test]
fn no_candidates_no_root() {
    assert_eq!(earliest_in_window(&[], b(1.0)), None);
}
