use rigid_ccd::classify::{inside_triangle, projection_axes};

fn b(x: f32) -> u32 {
    x.to_bits()
}

fn axes(x: f32, y: f32, z: f32) -> (usize, usize) {
    projection_axes([b(x), b(y), b(z)])
}

#[test]
fn centroid_weights_are_inside() {
    let r = 1.0f32 / 3.0;
    let s = 1.0f32 / 3.0;
    assert!(inside_triangle(b(r), b(s), b(r + s)));
}

#[test]
fn negative_weight_is_outside() {
    let r = -0.1f32;
    let s = 0.5f32;
    assert!(!inside_triangle(b(r), b(s), b(r + s)));
    assert!(!inside_triangle(b(s), b(r), b(r + s)));
}

#[test]
fn weights_summing_past_one_are_outside() {
    assert!(!inside_triangle(b(0.6), b(0.5), b(1.1)));
    assert!(inside_triangle(b(0.5), b(0.5), b(1.0)));
    assert!(inside_triangle(b(0.0), b(0.0), b(0.0)));
    assert!(!inside_triangle(f32::NAN.to_bits(), b(0.1), b(0.1)));
}

#[test]
fn projection_keeps_two_largest_components() {
    assert_eq!(axes(1.0, 2.0, 3.0), (2, 1));
    assert_eq!(axes(1.0, 3.0, 2.0), (1, 2));
    assert_eq!(axes(2.0, 3.0, 1.0), (1, 0));
    assert_eq!(axes(2.0, 1.0, 3.0), (2, 0));
    assert_eq!(axes(3.0, 1.0, 2.0), (0, 2));
    assert_eq!(axes(3.0, 2.0, 1.0), (0, 1));
    assert_eq!(axes(-5.0, 0.0, -1.0), (1, 2));
}

#[test]
fn projection_ties_go_to_lower_axis() {
    assert_eq!(axes(1.0, 1.0, 1.0), (0, 1));
    assert_eq!(axes(2.0, 2.0, 1.0), (0, 1));
    assert_eq!(axes(1.0, 1.0, 2.0), (2, 0));
    assert_eq!(axes(1.0, 2.0, 2.0), (1, 2));
    assert_eq!(axes(2.0, 1.0, 2.0), (0, 2));
    assert_eq!(axes(0.0, -0.0, -1.0), (0, 1));
}
