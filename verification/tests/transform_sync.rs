use xr_scene::fixed::FX_ONE;
use xr_scene::mat::{compose, Mat3, Mat4};
use xr_scene::transform::MatrixContainer;
use xr_scene::vec3::Vec3;

fn fx(v: f64) -> i64 {
    (v * 65536.0).round() as i64
}

fn unit() -> Vec3 {
    Vec3::new(FX_ONE, FX_ONE, FX_ONE)
}

#[test]
fn setters_compose_the_matrix() {
    let mut mc = MatrixContainer::new(Vec3::new(0, 0, 0), Vec3::new(0, 0, 0), unit());
    let p = Vec3::new(fx(1.0), fx(2.0), fx(3.0));
    let r = Vec3::new(0, 90 * FX_ONE, 0);
    let s = Vec3::new(fx(2.0), FX_ONE, FX_ONE);
    mc.set_pos_vec(p);
    mc.set_rotation_vec(r);
    mc.set_scale_vec(s);
    let expected = compose(s, r, p);
    assert_eq!(mc.get_matrix(), expected);
    // a 90-degree yaw of a unit x column lands on -z, scaled by 2
    assert_eq!(mc.get_matrix().linear.zx, -2 * FX_ONE);
    assert_eq!(mc.get_matrix().translation, p);
}

#[test]
fn tuple_setters_match_vector_setters() {
    let mut a = MatrixContainer::new(Vec3::new(0, 0, 0), Vec3::new(0, 0, 0), unit());
    let mut b = MatrixContainer::new(Vec3::new(0, 0, 0), Vec3::new(0, 0, 0), unit());
    a.set_pos(fx(1.0), fx(-2.0), 0);
    b.set_pos_vec(Vec3::new(fx(1.0), fx(-2.0), 0));
    assert_eq!(a.get_matrix(), b.get_matrix());
    assert_eq!(a.get_pos(), (fx(1.0), fx(-2.0), 0));
}

#[test]
fn sync_matrix_is_idempotent() {
    let mut mc = MatrixContainer::new(
        Vec3::new(fx(0.5), 0, 0),
        Vec3::new(0, fx(45.0), 0),
        Vec3::new(fx(1.5), FX_ONE, FX_ONE),
    );
    mc.sync_matrix();
    let first = mc.get_matrix();
    mc.sync_matrix();
    assert_eq!(mc.get_matrix(), first);
}

#[test]
fn additive_setters_accumulate() {
    let mut mc = MatrixContainer::new(Vec3::new(0, 0, 0), Vec3::new(0, 0, 0), unit());
    mc.translate(FX_ONE, 0, 0);
    mc.translate(FX_ONE, 0, 0);
    assert_eq!(mc.get_pos_vec(), Vec3::new(2 * FX_ONE, 0, 0));
    mc.rotate(0, fx(10.0), 0);
    mc.rotate(0, fx(10.0), 0);
    // Euler addition is componentwise, not quaternion composition
    assert_eq!(mc.get_rotation_vec(), Vec3::new(0, fx(20.0), 0));
    mc.scale(FX_ONE, 0, 0);
    assert_eq!(mc.get_scale_vec(), Vec3::new(2 * FX_ONE, FX_ONE, FX_ONE));
}

#[test]
fn axis_aligned_matrix_round_trips_exactly() {
    let mut mc = MatrixContainer::new(Vec3::new(0, 0, 0), Vec3::new(0, 0, 0), unit());
    let p = Vec3::new(fx(3.25), fx(-1.5), fx(0.125));
    let s = Vec3::new(fx(2.0), fx(0.5), fx(7.0));
    let m = compose(s, Vec3::new(0, 0, 0), p);
    assert!(mc.set_matrix(m).is_ok());
    assert_eq!(mc.get_pos_vec(), p);
    assert_eq!(mc.get_scale_vec(), s);
    assert_eq!(mc.get_rotation_vec(), Vec3::new(0, 0, 0));
    assert_eq!(mc.get_matrix(), m);
}

#[test]
fn rotated_matrix_round_trips_within_tolerance() {
    let mut mc = MatrixContainer::new(Vec3::new(0, 0, 0), Vec3::new(0, 0, 0), unit());
    let p = Vec3::new(fx(1.0), fx(2.0), fx(3.0));
    let r = Vec3::new(0, fx(30.0), 0);
    let m = compose(unit(), r, p);
    assert!(mc.set_matrix(m).is_ok());
    let got = mc.get_rotation_vec();
    assert!((got.y - fx(30.0)).abs() < fx(0.75), "recovered yaw {}", got.y);
    assert!(got.x.abs() < fx(0.75) && got.z.abs() < fx(0.75));
    // recomposing from the recovered pose reproduces the matrix closely
    let again = mc.get_matrix();
    mc.sync_matrix();
    let re = mc.get_matrix();
    let entries = |m: Mat4| -> [i64; 9] {
        let l: Mat3 = m.linear;
        [l.xx, l.xy, l.xz, l.yx, l.yy, l.yz, l.zx, l.zy, l.zz]
    };
    let a = entries(again);
    let b = entries(re);
    for i in 0..9 {
        assert!((a[i] - b[i]).abs() < fx(0.03), "entry {i}: {} vs {}", a[i], b[i]);
    }
}

#[test]
fn singular_matrix_is_rejected_unchanged() {
    let p = Vec3::new(fx(1.0), 0, 0);
    let mut mc = MatrixContainer::new(p, Vec3::new(0, 0, 0), unit());
    let before_matrix = mc.get_matrix();
    let singular = Mat4 {
        linear: Mat3 { xx: 0, xy: 0, xz: 0, yx: 0, yy: 0, yz: 0, zx: 0, zy: 0, zz: 0 },
        translation: Vec3::new(fx(9.0), 0, 0),
    };
    assert!(mc.set_matrix(singular).is_err());
    assert_eq!(mc.get_matrix(), before_matrix);
    assert_eq!(mc.get_pos_vec(), p);
}
