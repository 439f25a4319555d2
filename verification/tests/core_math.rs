//! Fixed-point math primitives: integer square root, truncating
//! division, clamping, normalization, rotation, and AABB overlap.

use grillageddon::geom::{isqrt, div_pos, clamp, unit_scaled, rotate_scaled, vec_len, Rect};

#[test]
fn isqrt_small_values() {
    assert_eq!(isqrt(0), 0);
    assert_eq!(isqrt(1), 1);
    assert_eq!(isqrt(2), 1);
    assert_eq!(isqrt(3), 1);
    assert_eq!(isqrt(4), 2);
    assert_eq!(isqrt(99), 9);
    assert_eq!(isqrt(100), 10);
}

#[test]
fn isqrt_large_values() {
    assert_eq!(isqrt(10_005_010_000), 100_025);
    assert_eq!(isqrt(u64::MAX), 4_294_967_295);
}

#[test]
fn div_pos_truncates_toward_zero() {
    assert_eq!(div_pos(7, 2), 3);
    assert_eq!(div_pos(-7, 2), -3);
    assert_eq!(div_pos(0, 5), 0);
    assert_eq!(div_pos(-1, 1000), 0);
}

#[test]
fn clamp_bounds() {
    assert_eq!(clamp(5, 0, 10), 5);
    assert_eq!(clamp(-5, 0, 10), 0);
    assert_eq!(clamp(15, 0, 10), 10);
}

#[test]
fn unit_scaled_axis_and_diagonal() {
    // A 3-4-5 triangle normalizes exactly.
    assert_eq!(unit_scaled(3000, 4000), (600, 800));
    assert_eq!(unit_scaled(-3000, 4000), (-600, 800));
    // Along an axis the direction is exact even for tiny vectors.
    assert_eq!(unit_scaled(5, 0), (1000, 0));
    assert_eq!(unit_scaled(0, -5), (0, -1000));
}

#[test]
fn vec_len_pythagorean() {
    assert_eq!(vec_len(3000, 4000), 5000);
    assert_eq!(vec_len(0, 0), 0);
    assert_eq!(vec_len(-1, 0), 1);
}

#[test]
fn rotate_scaled_spread_constants() {
    // Rotating the unit +x direction by the shotgun's half spread.
    assert_eq!(rotate_scaled(1000, 0, 985, 174), (985, 174));
    assert_eq!(rotate_scaled(1000, 0, 985, -174), (985, -174));
    // The zero angle is the identity.
    assert_eq!(rotate_scaled(600, 800, 1000, 0), (600, 800));
}

#[test]
fn overlap_edge_touching_is_no_overlap() {
    let a = Rect::new(0, 0, 10_000, 10_000);
    let touching = Rect::new(10_000, 0, 10_000, 10_000);
    let crossing = Rect::new(9_999, 0, 10_000, 10_000);
    let distant = Rect::new(50_000, 50_000, 10_000, 10_000);
    assert!(!a.overlaps(&touching));
    assert!(a.overlaps(&crossing));
    assert!(!a.overlaps(&distant));
    assert!(a.overlaps(&a));
}
