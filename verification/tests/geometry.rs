use xr_scene::bounds::Bounds;
use xr_scene::fixed::{fx_clamp, fx_mul, FX_ONE};
use xr_scene::trig::{cos_fx, sin_fx, FX_DEG_90, FX_DEG_180, FX_DEG_360};
use xr_scene::vec3::Vec3;

fn fx(v: f64) -> i64 {
    (v * 65536.0).round() as i64
}

#[test]
fn fixed_point_products_are_exact() {
    assert_eq!(fx_mul(fx(2.5), fx(4.0)), fx(10.0));
    assert_eq!(fx_mul(fx(-2.5), fx(4.0)), fx(-10.0));
    assert_eq!(fx_mul(0, fx(7.0)), 0);
    assert_eq!(fx_clamp(5, 0, 3), 3);
    assert_eq!(fx_clamp(-5, 0, 3), 0);
    assert_eq!(fx_clamp(2, 0, 3), 2);
}

#[test]
fn sine_is_exact_at_quarter_turns() {
    assert_eq!(sin_fx(0), 0);
    assert_eq!(sin_fx(FX_DEG_90), FX_ONE);
    assert_eq!(sin_fx(FX_DEG_180), 0);
    assert_eq!(sin_fx(FX_DEG_90 + FX_DEG_180), -FX_ONE);
    assert_eq!(sin_fx(FX_DEG_360), 0);
    assert_eq!(cos_fx(0), FX_ONE);
    assert_eq!(cos_fx(FX_DEG_90), 0);
    assert_eq!(sin_fx(-FX_DEG_90), -FX_ONE);
}

#[test]
fn sine_of_thirty_degrees_is_a_half() {
    assert_eq!(sin_fx(30 * FX_ONE), FX_ONE / 2);
}

#[test]
fn sine_approximation_stays_close() {
    for deg in 0..360 {
        let s = sin_fx(deg * FX_ONE) as f64 / 65536.0;
        let exact = (deg as f64).to_radians().sin();
        assert!((s - exact).abs() < 0.003, "degree {deg}: {s} vs {exact}");
    }
}

#[test]
fn face_point_is_contained() {
    let b = Bounds::new(Vec3::new(0, 0, 0), Vec3::new(2 * FX_ONE, 2 * FX_ONE, 2 * FX_ONE));
    // exactly on the +x face: center.x + dimensions.x / 2
    assert!(b.bounds_point_contains(Vec3::new(FX_ONE, 0, 0)));
    // one step beyond is out
    assert!(!b.bounds_point_contains(Vec3::new(FX_ONE + 1, 0, 0)));
    // corners are contained too
    assert!(b.bounds_point_contains(Vec3::new(FX_ONE, -FX_ONE, FX_ONE)));
}

#[test]
fn negative_extent_contains_nothing() {
    let b = Bounds::new(Vec3::new(0, 0, 0), Vec3::new(-FX_ONE, FX_ONE, FX_ONE));
    assert!(!b.bounds_point_contains(Vec3::new(0, 0, 0)));
}

#[test]
fn degenerate_capsule_matches_sphere_test() {
    let b = Bounds::new(Vec3::new(0, 0, 0), Vec3::new(2 * FX_ONE, 2 * FX_ONE, 2 * FX_ONE));
    let p = Vec3::new(2 * FX_ONE, 0, 0);
    // sphere of radius 1 at (2,0,0) touches the face at (1,0,0)
    assert!(b.bounds_capsule_contains(p, p, FX_ONE));
    // radius short of the gap misses
    assert!(!b.bounds_capsule_contains(p, p, FX_ONE - 1));
    // a point inside is always in
    let inside = Vec3::new(fx(0.5), 0, 0);
    assert!(b.bounds_capsule_contains(inside, inside, 1));
}

#[test]
fn capsule_segment_reaches_box() {
    let b = Bounds::new(Vec3::new(0, 0, 0), Vec3::new(2 * FX_ONE, 2 * FX_ONE, 2 * FX_ONE));
    // a segment sweeping past the +x face within its radius
    let p1 = Vec3::new(fx(1.4), -2 * FX_ONE, 0);
    let p2 = Vec3::new(fx(1.4), 2 * FX_ONE, 0);
    assert!(b.bounds_capsule_contains(p1, p2, fx(0.5)));
    assert!(!b.bounds_capsule_contains(p1, p2, fx(0.3)));
}
