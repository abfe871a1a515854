//! The vector field and the Euler step, held against the closed-form update.

use lorenz_vis::fx::SCALE;
use lorenz_vis::sim::{lorenz, step, SimulationParameters};
use lorenz_vis::vec3::Vec3;

/// Saturating fixed-point product, as plain wide arithmetic: the reference
/// the library's step is checked against.
fn ref_mul(a: i64, b: i64) -> i64 {
    let p = (a as i128) * (b as i128) / (SCALE as i128);
    p.clamp(i64::MIN as i128, i64::MAX as i128) as i64
}

fn ref_add(a: i64, b: i64) -> i64 {
    ((a as i128) + (b as i128)).clamp(i64::MIN as i128, i64::MAX as i128) as i64
}

fn ref_sub(a: i64, b: i64) -> i64 {
    ((a as i128) - (b as i128)).clamp(i64::MIN as i128, i64::MAX as i128) as i64
}

/// The closed-form Euler update `s + dt * f(s)` with
/// `f = (sigma(y - x), x(rho - z) - y, xy - beta z)`.
fn ref_step(s: (i64, i64, i64), p: (i64, i64, i64), dt: i64) -> (i64, i64, i64) {
    let (x, y, z) = s;
    let (sigma, rho, beta) = p;
    let fx_ = ref_mul(sigma, ref_sub(y, x));
    let fy = ref_sub(ref_mul(x, ref_sub(rho, z)), y);
    let fz = ref_sub(ref_mul(x, y), ref_mul(beta, z));
    (
        ref_add(x, ref_mul(dt, fx_)),
        ref_add(y, ref_mul(dt, fy)),
        ref_add(z, ref_mul(dt, fz)),
    )
}

#[test]
fn step_is_deterministic() {
    let s = Vec3 {
        x: 1_234_567,
        y: -7_654_321,
        z: 42_000_000,
    };
    let p = SimulationParameters {
        sigma: 10_000_000,
        rho: 28_000_000,
        beta: 2_666_667,
    };
    let a = step(s, p, 2_000);
    let b = step(s, p, 2_000);
    assert_eq!(a, b);
    let c = lorenz(s, p);
    let d = lorenz(s, p);
    assert_eq!(c, d);
}

#[test]
fn step_matches_euler_formula_for_reference_configuration() {
    // Seed (1, 1, 1), sigma = 10, rho = 28, beta = 8/3, dt = 0.01.
    let s = Vec3 {
        x: SCALE,
        y: SCALE,
        z: SCALE,
    };
    let p = SimulationParameters {
        sigma: 10 * SCALE,
        rho: 28 * SCALE,
        beta: 2_666_667,
    };
    let dt = 10_000;
    let got = step(s, p, dt);
    let (ex, ey, ez) = ref_step((s.x, s.y, s.z), (p.sigma, p.rho, p.beta), dt);
    assert_eq!((got.x, got.y, got.z), (ex, ey, ez));
    // The x rate vanishes at x == y, y grows by dt * 26, z shrinks a little.
    assert_eq!(got.x, SCALE);
    assert_eq!(got.y, 1_260_000);
    assert!(got.z < SCALE && got.z > 980_000);
}

#[test]
fn step_matches_euler_formula_on_assorted_states() {
    let states = [
        (0, 0, 0),
        (-5 * SCALE, 3 * SCALE, 20 * SCALE),
        (50_000_000, -50_000_000, 1),
        (i64::MAX / 2, i64::MIN / 2, 123_456_789),
    ];
    let p = SimulationParameters {
        sigma: 10 * SCALE,
        rho: 28 * SCALE,
        beta: 2_666_667,
    };
    for &(x, y, z) in states.iter() {
        let got = step(Vec3 { x, y, z }, p, 2_000);
        let (ex, ey, ez) = ref_step((x, y, z), (p.sigma, p.rho, p.beta), 2_000);
        assert_eq!((got.x, got.y, got.z), (ex, ey, ez));
    }
}

#[test]
fn field_saturates_instead_of_wrapping() {
    // Pathological coefficients are permitted; extremes saturate.
    let s = Vec3 {
        x: i64::MAX,
        y: i64::MAX,
        z: 0,
    };
    let p = SimulationParameters {
        sigma: 0,
        rho: 0,
        beta: 0,
    };
    let f = lorenz(s, p);
    let (ex, ey, ez) = {
        let fx_ = ref_mul(p.sigma, ref_sub(s.y, s.x));
        let fy = ref_sub(ref_mul(s.x, ref_sub(p.rho, s.z)), s.y);
        let fz = ref_sub(ref_mul(s.x, s.y), ref_mul(p.beta, s.z));
        (fx_, fy, fz)
    };
    assert_eq!((f.x, f.y, f.z), (ex, ey, ez));
    // The xy product pins the z rate at the positive extreme.
    assert_eq!(f.z, i64::MAX);
    assert_eq!(f.y, -i64::MAX);
}
