//! The free-fly camera: pitch clamping, unit-length front vectors, and the
//! discrete key operations.

use lorenz_vis::camera::{CameraKey, CameraState, SinCos, PITCH_LIMIT, POINTER_SENSITIVITY};
use lorenz_vis::fx::{isqrt_u128, SCALE};
use lorenz_vis::vec3::{Vec3, UNIT_TOL};

/// Length of `v` in fixed-point steps, by exact integer arithmetic.
fn int_norm(v: Vec3) -> u64 {
    let sq = (v.x as i128) * (v.x as i128) + (v.y as i128) * (v.y as i128)
        + (v.z as i128) * (v.z as i128);
    isqrt_u128(sq as u128)
}

fn assert_unit(v: Vec3) {
    let n = int_norm(v) as i64;
    assert!(
        (n - SCALE).abs() <= UNIT_TOL,
        "length {} out of tolerance",
        n
    );
}

/// A fixed-point sine/cosine pair for an angle in fixed-point degrees.
fn sincos(angle: i64) -> SinCos {
    let radians = (angle as f64) / (SCALE as f64) * std::f64::consts::PI / 180.0;
    SinCos {
        sin: (radians.sin() * SCALE as f64).round() as i64,
        cos: (radians.cos() * SCALE as f64).round() as i64,
    }
}

#[test]
fn pitch_stays_clamped_under_any_pointer_sequence() {
    let mut cam = CameraState::new();
    let deltas: [(i32, i32); 7] = [
        (5, 10),
        (0, i32::MAX),
        (-3, 4),
        (0, i32::MIN),
        (1000, 2_000_000),
        (-7, -2_000_000),
        (0, 890),
    ];
    for &(dx, dy) in deltas.iter() {
        cam.apply_pointer_delta(dx, dy, true);
        assert!(-PITCH_LIMIT <= cam.pitch && cam.pitch <= PITCH_LIMIT);
    }
}

#[test]
fn pointer_deltas_are_ignored_without_pointer_lock() {
    let mut cam = CameraState::new();
    let before = cam;
    cam.apply_pointer_delta(100, -200, false);
    assert_eq!(cam, before);
}

#[test]
fn pointer_delta_moves_yaw_against_horizontal_travel() {
    let mut cam = CameraState::new();
    let yaw0 = cam.yaw;
    cam.apply_pointer_delta(10, 0, true);
    assert_eq!(cam.yaw, yaw0 - 10 * POINTER_SENSITIVITY);
    assert_eq!(cam.pitch, 0);
}

#[test]
fn front_from_angles_is_unit_and_tracks_pitch() {
    let mut cam = CameraState::new();
    cam.apply_pointer_delta(0, 300, true);
    let applied = cam.set_front_from_angles(sincos(cam.yaw), sincos(cam.pitch));
    assert!(applied);
    assert_unit(cam.front);
    // Pitch grew by 30 degrees; the front's y component is sin(30) = 1/2.
    assert_eq!(cam.pitch, 30_000_000);
    assert!((cam.front.y - SCALE / 2).abs() <= 2);
}

#[test]
fn front_and_up_stay_unit_under_rotation_sequences() {
    let mut cam = CameraState::new();
    let keys = [
        CameraKey::TiltUp,
        CameraKey::TiltUp,
        CameraKey::TiltRight,
        CameraKey::TiltDown,
        CameraKey::TiltLeft,
        CameraKey::TiltLeft,
    ];
    // A long mixed sequence of key rotations and pointer-derived fronts.
    for round in 0..50 {
        for &k in keys.iter() {
            cam.apply_key(k);
            assert_unit(cam.front);
            assert_unit(cam.up);
        }
        cam.apply_pointer_delta(17 * round, -11 * round, true);
        let applied = cam.set_front_from_angles(sincos(cam.yaw), sincos(cam.pitch));
        assert!(applied);
        assert_unit(cam.front);
        assert_unit(cam.up);
    }
}

#[test]
fn translation_keys_move_position_only() {
    let mut cam = CameraState::new();
    let front = cam.front;
    let up = cam.up;
    // Initial pose: front (0, 0, -1), speed 2: forward twice is z -= 4.
    cam.apply_key(CameraKey::Forward);
    cam.apply_key(CameraKey::Forward);
    assert_eq!(cam.position.z, 500_000_000 - 4 * SCALE);
    cam.apply_key(CameraKey::Backward);
    assert_eq!(cam.position.z, 500_000_000 - 2 * SCALE);
    // Vertical travel follows up.
    cam.apply_key(CameraKey::Ascend);
    assert_eq!(cam.position.y, 2 * SCALE);
    cam.apply_key(CameraKey::Descend);
    cam.apply_key(CameraKey::Descend);
    assert_eq!(cam.position.y, -2 * SCALE);
    // Strafing follows front x up = (1, 0, 0) at the initial pose.
    cam.apply_key(CameraKey::StrafeLeft);
    assert_eq!(cam.position.x, 2 * SCALE);
    cam.apply_key(CameraKey::StrafeRight);
    cam.apply_key(CameraKey::StrafeRight);
    assert_eq!(cam.position.x, -2 * SCALE);
    assert_eq!(cam.front, front);
    assert_eq!(cam.up, up);
}

#[test]
fn tilt_keys_rotate_front() {
    let mut cam = CameraState::new();
    let before = cam.front;
    cam.apply_key(CameraKey::TiltDown);
    assert_ne!(cam.front, before, "a tilt key must take effect");
    assert!(cam.front.y > before.y);
    assert_unit(cam.front);
    assert_eq!(cam.position, CameraState::new().position);
}
