//! The fixed-point scalar layer: exact values, saturation, roots, and
//! normalization.

use lorenz_vis::fx::{fx_add, fx_div, fx_mul, fx_sub, isqrt_u128, SCALE};
use lorenz_vis::mat4::look_at_rh;
use lorenz_vis::vec3::{norm, normalize, vsub, Vec3};

#[test]
fn products_rescale_by_the_unit() {
    // 2.5 * 4 = 10.
    assert_eq!(fx_mul(2_500_000, 4_000_000), 10_000_000);
    // Truncation is toward zero on both signs.
    assert_eq!(fx_mul(1, 1), 0);
    assert_eq!(fx_mul(-1, 1), 0);
    assert_eq!(fx_mul(1_500_000, 333_333), 499_999);
    assert_eq!(fx_mul(-1_500_000, 333_333), -499_999);
}

#[test]
fn sums_and_differences_saturate() {
    assert_eq!(fx_add(i64::MAX, 1), i64::MAX);
    assert_eq!(fx_sub(i64::MIN, 1), i64::MIN);
    assert_eq!(fx_add(3, 4), 7);
    assert_eq!(fx_sub(3, 4), -1);
    assert_eq!(fx_mul(i64::MAX, i64::MAX), i64::MAX);
    assert_eq!(fx_mul(i64::MAX, i64::MIN), i64::MIN);
}

#[test]
fn quotients_rescale_by_the_unit() {
    // 10 / 4 = 2.5.
    assert_eq!(fx_div(10_000_000, 4_000_000), 2_500_000);
    assert_eq!(fx_div(-10_000_000, 4_000_000), -2_500_000);
    assert_eq!(fx_div(10_000_000, -4_000_000), -2_500_000);
    assert_eq!(fx_div(-10_000_000, -4_000_000), 2_500_000);
    // 1 / 3 truncates toward zero.
    assert_eq!(fx_div(SCALE, 3 * SCALE), 333_333);
}

#[test]
fn integer_square_roots_are_floors() {
    assert_eq!(isqrt_u128(0), 0);
    assert_eq!(isqrt_u128(1), 1);
    assert_eq!(isqrt_u128(99), 9);
    assert_eq!(isqrt_u128(100), 10);
    assert_eq!(isqrt_u128(101), 10);
    assert_eq!(isqrt_u128(u128::MAX), u64::MAX);
    assert_eq!(isqrt_u128(10u128.pow(14)), 10u64.pow(7));
}

#[test]
fn norm_of_an_axis_aligned_vector_is_exact() {
    let v = Vec3 {
        x: 10 * SCALE,
        y: 0,
        z: 0,
    };
    assert_eq!(norm(v), 10 * SCALE);
    let d = vsub(
        Vec3 {
            x: 3 * SCALE,
            y: 4 * SCALE,
            z: 0,
        },
        Vec3 { x: 0, y: 0, z: 0 },
    );
    // A 3-4-5 triangle.
    assert_eq!(norm(d), 5 * SCALE);
}

#[test]
fn normalization_rescales_toward_unit_length() {
    let v = Vec3 {
        x: 3 * SCALE,
        y: 4 * SCALE,
        z: 0,
    };
    let n = normalize(v);
    assert_eq!(n, Vec3 { x: 600_000, y: 800_000, z: 0 });
}

#[test]
fn look_at_is_undefined_for_a_front_parallel_to_up() {
    let eye = Vec3 { x: 0, y: 0, z: 0 };
    let up = Vec3 {
        x: 0,
        y: SCALE,
        z: 0,
    };
    assert!(look_at_rh(eye, up, up).is_none());
    let front = Vec3 {
        x: 0,
        y: 0,
        z: -SCALE,
    };
    let view = look_at_rh(eye, front, up).unwrap();
    // At the canonical pose the view is the identity rotation with no
    // translation: the sideways axis is +X.
    assert_eq!((view.r0.x, view.r0.y, view.r0.z), (SCALE, 0, 0));
    assert_eq!((view.r2.x, view.r2.y, view.r2.z), (0, 0, SCALE));
    assert_eq!(view.r3.w, SCALE);
}
