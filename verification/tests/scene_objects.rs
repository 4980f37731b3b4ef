use xr_scene::bounds::Bounds;
use xr_scene::collider::{CapsuleCollider, Collider, ColliderType};
use xr_scene::fixed::FX_ONE;
use xr_scene::model::{Color, Model, ModelAsset, RenderLayer};
use xr_scene::vec3::Vec3;

fn fx(v: f64) -> i64 {
    (v * 65536.0).round() as i64
}

fn unit_cube_asset() -> ModelAsset {
    ModelAsset {
        handle: 1,
        bounds: Bounds::new(Vec3::new(0, 0, 0), Vec3::new(FX_ONE, FX_ONE, FX_ONE)),
    }
}

#[test]
fn creation_defaults() {
    let m = Model::create_from_asset(unit_cube_asset());
    assert_eq!(m.get_pos_vec(), Vec3::new(0, 0, 0));
    assert_eq!(m.get_rotation_vec(), Vec3::new(0, 0, 0));
    assert_eq!(m.get_scale_vec(), Vec3::new(FX_ONE, FX_ONE, FX_ONE));
    assert_eq!(m.tint, Color { r: FX_ONE, g: FX_ONE, b: FX_ONE, a: FX_ONE });
    assert_eq!(m.render_layer, RenderLayer::Layer0);
    assert!(m.collider.is_none());
}

#[test]
fn bound_test() {
    // a unit cube mesh at (1.1, 0, 0), unit scale
    let mut model = Model::create_from_asset(unit_cube_asset());
    model.set_pos_vec(Vec3::new(fx(1.1), 0, 0));
    // the palm exactly at the object's center is inside
    assert!(model.contains(Vec3::new(fx(1.1), 0, 0)));
    // a palm far along x is outside
    assert!(!model.contains(Vec3::new(fx(3.0), 0, 0)));
    // when the hand touches it, the object is pushed along x
    model.translate_vec(Vec3::new(FX_ONE, 0, 0));
    assert_eq!(model.get_pos_vec(), Vec3::new(fx(1.1) + FX_ONE, 0, 0));
    assert!(!model.contains(Vec3::new(fx(1.1), 0, 0)));
}

#[test]
fn model_test() {
    // per-frame pose accumulation: rotate, scale and translate add up
    let mut model = Model::create_from_asset(unit_cube_asset());
    model.set_pos_vec(Vec3::new(fx(0.1), 0, 0));
    let mut red_val: i64 = FX_ONE;
    for _frame in 0..3 {
        let call = model.draw();
        assert_eq!(call.matrix, model.get_matrix());
        assert_eq!(call.render_layer, RenderLayer::Layer0);
        model.rotate_vec(Vec3::new(0, FX_ONE, 0));
        model.scale_vec(Vec3::new(fx(0.001), 0, 0));
        model.translate_vec(Vec3::new(0, 0, fx(0.01)));
        model.tint.r = red_val;
        red_val += fx(0.0005);
    }
    assert_eq!(model.get_rotation_vec(), Vec3::new(0, 3 * FX_ONE, 0));
    assert_eq!(model.get_scale_vec(), Vec3::new(FX_ONE + 3 * fx(0.001), FX_ONE, FX_ONE));
    assert_eq!(model.get_pos_vec(), Vec3::new(fx(0.1), 0, 3 * fx(0.01)));
    // draw reflects every mutation made earlier in the frame
    assert_eq!(model.draw().matrix, model.get_matrix());
    assert_eq!(model.draw().tint.r, red_val - fx(0.0005));
}

#[test]
fn scaled_bounds_follow_the_scale() {
    let mut m = Model::create_from_asset(unit_cube_asset());
    m.set_scale_vec(Vec3::new(2 * FX_ONE, 2 * FX_ONE, 2 * FX_ONE));
    let b = m.get_bounds();
    assert_eq!(b.dimensions, Vec3::new(2 * FX_ONE, 2 * FX_ONE, 2 * FX_ONE));
    assert_eq!(b.center, Vec3::new(0, 0, 0));
}

#[test]
fn capsules_half_unit_apart_with_point_three_radii_touch() {
    // parallel vertical cores 0.5 apart, radius 0.3 each: 0.5 <= 0.6
    let c1 = CapsuleCollider {
        point1: Vec3::new(0, 0, 0),
        point2: Vec3::new(0, FX_ONE, 0),
        radius: fx(0.3),
    };
    let c2 = CapsuleCollider {
        point1: Vec3::new(fx(0.5), 0, 0),
        point2: Vec3::new(fx(0.5), FX_ONE, 0),
        radius: fx(0.3),
    };
    assert!(Collider::CapsuleCollider(c1).intersects(&Collider::CapsuleCollider(c2)));
    // with radius 0.2 each the gap of 0.5 exceeds 0.4
    let thin1 = CapsuleCollider { radius: fx(0.2), ..c1 };
    let thin2 = CapsuleCollider { radius: fx(0.2), ..c2 };
    assert!(!Collider::CapsuleCollider(thin1).intersects(&Collider::CapsuleCollider(thin2)));
}

#[test]
fn capsules_a_tenth_apart_with_tenth_radii_touch() {
    let c1 = CapsuleCollider {
        point1: Vec3::new(0, 0, 0),
        point2: Vec3::new(0, FX_ONE, 0),
        radius: fx(0.1),
    };
    let c2 = CapsuleCollider {
        point1: Vec3::new(fx(0.1), 0, 0),
        point2: Vec3::new(fx(0.1), FX_ONE, 0),
        radius: fx(0.1),
    };
    assert!(Collider::CapsuleCollider(c1).intersects(&Collider::CapsuleCollider(c2)));
}

#[test]
fn crossing_capsules_touch() {
    // skew cores crossing near the origin
    let c1 = CapsuleCollider {
        point1: Vec3::new(-FX_ONE, 0, 0),
        point2: Vec3::new(FX_ONE, 0, 0),
        radius: fx(0.2),
    };
    let c2 = CapsuleCollider {
        point1: Vec3::new(0, -FX_ONE, fx(0.3)),
        point2: Vec3::new(0, FX_ONE, fx(0.3)),
        radius: fx(0.2),
    };
    assert!(Collider::CapsuleCollider(c1).intersects(&Collider::CapsuleCollider(c2)));
    let far2 = CapsuleCollider {
        point1: Vec3::new(0, -FX_ONE, fx(0.5)),
        point2: Vec3::new(0, FX_ONE, fx(0.5)),
        radius: fx(0.2),
    };
    assert!(!Collider::CapsuleCollider(c1).intersects(&Collider::CapsuleCollider(far2)));
}

#[test]
fn collider_regenerates_from_current_pose() {
    let mut m = Model::create_from_asset(unit_cube_asset());
    m.set_collider(ColliderType::Capsule);
    let before = m.get_collider().expect("collider was set");
    // mutate the pose after setting the collider
    m.translate_vec(Vec3::new(FX_ONE, 0, 0));
    let after = m.get_collider().expect("collider still set");
    let Collider::CapsuleCollider(b) = before;
    let Collider::CapsuleCollider(a) = after;
    // the regenerated capsule reflects the post-translation bounds
    assert_eq!(a.point1.x, b.point1.x + FX_ONE);
    assert_eq!(a.point2.x, b.point2.x + FX_ONE);
    assert_eq!(a.point1.y, b.point1.y);
    assert_eq!(a.radius, b.radius);
    assert_eq!(a.point1.z, b.point1.z);
}

#[test]
fn get_collider_without_one_is_none() {
    let mut m = Model::create_from_asset(unit_cube_asset());
    assert!(m.get_collider().is_none());
}

#[test]
fn capsule_against_object_bounds() {
    let mut m = Model::create_from_asset(unit_cube_asset());
    m.set_pos_vec(Vec3::new(fx(1.0), 0, 0));
    // a vertical capsule through the object's center
    let through = CapsuleCollider {
        point1: Vec3::new(fx(1.0), -FX_ONE, 0),
        point2: Vec3::new(fx(1.0), FX_ONE, 0),
        radius: fx(0.1),
    };
    assert!(m.capsule_intersects(&through));
    assert!(m.collider_intersects(&Collider::CapsuleCollider(through)));
    // one far to the side misses
    let aside = CapsuleCollider {
        point1: Vec3::new(fx(5.0), -FX_ONE, 0),
        point2: Vec3::new(fx(5.0), FX_ONE, 0),
        radius: fx(0.1),
    };
    assert!(!m.capsule_intersects(&aside));
}

#[test]
fn collider_type_is_capsule() {
    let c = Collider::CapsuleCollider(CapsuleCollider {
        point1: Vec3::new(0, 0, 0),
        point2: Vec3::new(0, FX_ONE, 0),
        radius: fx(0.5),
    });
    assert_eq!(c.get_type(), ColliderType::Capsule);
}

#[test]
fn derived_capsule_covers_the_rotated_box() {
    // a cube scaled by 2 and yawed 45 degrees; every point just inside
    // its world-space corners must fall in the derived capsule
    let mut m = Model::create_from_asset(unit_cube_asset());
    m.set_pos_vec(Vec3::new(fx(1.0), 0, 0));
    m.set_rotation_vec(Vec3::new(0, fx(45.0), 0));
    m.set_scale_vec(Vec3::new(2 * FX_ONE, 2 * FX_ONE, 2 * FX_ONE));
    m.set_collider(ColliderType::Capsule);
    let Collider::CapsuleCollider(cap) = m.get_collider().expect("collider was set");
    let rot = xr_scene::mat::rot_from_euler(m.get_rotation_vec());
    for sx in [-1i64, 1] {
        for sy in [-1i64, 1] {
            for sz in [-1i64, 1] {
                // 99% of the way to the corner, to stay clear of
                // fixed-point rounding on the exact surface
                let corner = Vec3::new(sx * fx(0.99), sy * fx(0.99), sz * fx(0.99));
                let world = xr_scene::mat::rot_apply(&rot, corner).plus(m.get_pos_vec());
                let probe = Collider::CapsuleCollider(CapsuleCollider {
                    point1: world,
                    point2: world,
                    radius: 0,
                });
                assert!(
                    Collider::CapsuleCollider(cap).intersects(&probe),
                    "corner ({sx},{sy},{sz}) escaped the capsule"
                );
            }
        }
    }
}

#[test]
fn negative_scale_passes_through_verbatim() {
    let mut m = Model::create_from_asset(unit_cube_asset());
    m.set_scale_vec(Vec3::new(-FX_ONE, FX_ONE, FX_ONE));
    assert_eq!(m.get_scale_vec(), Vec3::new(-FX_ONE, FX_ONE, FX_ONE));
    // the matrix mirrors along x, with no clamping anywhere
    assert_eq!(m.get_matrix().linear.xx, -FX_ONE);
    let b = m.get_bounds();
    assert_eq!(b.dimensions.x, -FX_ONE);
}
