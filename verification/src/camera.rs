//! The free-fly camera: a state machine over position, front and up vectors
//! and the authoritative yaw/pitch angles, driven by pointer deltas and
//! discrete key operations.
//!
//! Angles are fixed-point degrees. The front vector is always derived from
//! yaw and pitch (never mutated independently), pitch is clamped away from
//! the poles, and front and up stay unit length to within `UNIT_TOL`.

use vstd::prelude::*;
use crate::fx;
use crate::fx::{fx_add, fx_sub, SCALE};
use crate::vec3::{
    Vec3,
    spec_vadd,
    spec_vsub,
    spec_vscale,
    spec_cross,
    spec_norm_sq,
    spec_normalize,
    approx_unit,
    vadd,
    vsub,
    vscale,
    cross,
    norm_sq,
    normalize,
    is_approx_unit,
};

verus! {

/// Pointer sensitivity: fixed-point degrees of rotation per pixel of pointer
/// travel (a tenth of a degree).
pub const POINTER_SENSITIVITY: i64 = 100_000;

/// Pitch is clamped to this many fixed-point degrees either side of level,
/// to avoid gimbal lock at the poles.
pub const PITCH_LIMIT: i64 = 89_000_000;

/// Distance travelled by one translation key press, in fixed-point units.
pub const CAMERA_SPEED: i64 = 2_000_000;

/// Front-vector nudge applied by one rotation key press: half a degree in
/// radians, in fixed-point units.
pub const ROTATION_STEP: i64 = 8_727;

/// A sine/cosine pair for one angle, in fixed-point units. The camera takes
/// these as inputs: the trigonometry itself happens at the numeric boundary.
#[derive(Clone, Copy, Debug, PartialEq, Eq, Structural)]
pub struct SinCos {
    pub sin: i64,
    pub cos: i64,
}

/// One discrete camera operation, each bound to one key.
#[derive(Clone, Copy, Debug, PartialEq, Eq, Structural)]
pub enum CameraKey {
    /// Translate along the front vector.
    Forward,
    /// Translate against the front vector.
    Backward,
    /// Translate along `front x up`.
    StrafeLeft,
    /// Translate against `front x up`.
    StrafeRight,
    /// Translate against the up vector.
    Descend,
    /// Translate along the up vector.
    Ascend,
    /// Nudge the front vector down the world Y axis and renormalize.
    TiltUp,
    /// Nudge the front vector up the world Y axis and renormalize.
    TiltDown,
    /// Nudge the front vector down the world X axis and renormalize.
    TiltRight,
    /// Nudge the front vector up the world X axis and renormalize.
    TiltLeft,
}

/// The camera pose. Front and up are derived quantities; yaw and pitch are
/// authoritative under pointer control.
#[derive(Clone, Copy, Debug, PartialEq, Eq, Structural)]
pub struct CameraState {
    pub position: Vec3,
    pub front: Vec3,
    pub up: Vec3,
    pub yaw: i64,
    pub pitch: i64,
}

/// Pitch clamped into the open cone around the horizon.
pub open spec fn clamp_pitch(p: int) -> int {
    if p > PITCH_LIMIT as int {
        PITCH_LIMIT as int
    } else if p < -(PITCH_LIMIT as int) {
        -(PITCH_LIMIT as int)
    } else {
        p
    }
}

/// The front direction derived from yaw and pitch:
/// `(cos(yaw)cos(pitch), sin(pitch), sin(yaw)cos(pitch))`.
pub open spec fn spec_front_from(yaw: SinCos, pitch: SinCos) -> Vec3 {
    Vec3 {
        x: fx::spec_mul(yaw.cos as int, pitch.cos as int) as i64,
        y: pitch.sin,
        z: fx::spec_mul(yaw.sin as int, pitch.cos as int) as i64,
    }
}

/// How far the squared length of a faithful sine/cosine pair may sit from
/// the fixed-point unit square (rounding slack at the numeric boundary).
pub const SINCOS_TOL: i64 = 4_000_000;

/// A faithful sine/cosine pair: both components within the unit range and
/// the squared length within `SINCOS_TOL` of the unit square.
pub open spec fn sincos_wf(sc: SinCos) -> bool {
    &&& -SCALE <= sc.sin <= SCALE
    &&& -SCALE <= sc.cos <= SCALE
    &&& 1_000_000_000_000 - SINCOS_TOL <= (sc.sin as int) * (sc.sin as int) + (sc.cos as int) * (
    sc.cos as int) <= 1_000_000_000_000 + SINCOS_TOL
}

/// Rescaling a product of two unit-range factors by `SCALE` truncates less
/// than one fixed-point step and never saturates.
proof fn lemma_scaled_product(p: int)
    requires
        -1_000_000_000_000 <= p <= 1_000_000_000_000,
    ensures
        -1_000_000 <= fx::tdiv(p, 1_000_000) <= 1_000_000,
        fx::sat64(fx::tdiv(p, 1_000_000)) == fx::tdiv(p, 1_000_000),
        -1_000_000 < p - fx::tdiv(p, 1_000_000) * 1_000_000,
        p - fx::tdiv(p, 1_000_000) * 1_000_000 < 1_000_000,
{
    if p >= 0 {
        assert(0 <= p - (p / 1_000_000) * 1_000_000 < 1_000_000 && 0 <= p / 1_000_000
            <= 1_000_000) by (nonlinear_arith)
            requires
                0 <= p <= 1_000_000_000_000,
        ;
    } else {
        let m = -p;
        assert(0 <= m - (m / 1_000_000) * 1_000_000 < 1_000_000 && 0 <= m / 1_000_000
            <= 1_000_000) by (nonlinear_arith)
            requires
                0 <= m <= 1_000_000_000_000,
        ;
        assert(p - (-(m / 1_000_000)) * 1_000_000 == -(m - (m / 1_000_000) * 1_000_000))
            by (nonlinear_arith)
            requires
                m == -p,
        ;
    }
}

/// A front vector derived from faithful sine/cosine pairs is unit to within
/// `UNIT_TOL`: the pairs' own squared lengths are within `SINCOS_TOL` of the
/// unit square, and the two fixed-point products each truncate less than one
/// step.
pub proof fn lemma_front_from_angles_unit(yaw: SinCos, pitch: SinCos)
    requires
        sincos_wf(yaw),
        sincos_wf(pitch),
    ensures
        approx_unit(spec_front_from(yaw, pitch)),
{
    let cy = yaw.cos as int;
    let sy = yaw.sin as int;
    let cp = pitch.cos as int;
    let sp = pitch.sin as int;
    assert(-1_000_000_000_000 <= cy * cp <= 1_000_000_000_000 && -1_000_000_000_000 <= sy * cp
        <= 1_000_000_000_000 && 0 <= cp * cp <= 1_000_000_000_000 && 0 <= sp * sp
        <= 1_000_000_000_000 && 0 <= cy * cy && 0 <= sy * sy) by (nonlinear_arith)
        requires
            -1_000_000 <= cy <= 1_000_000,
            -1_000_000 <= sy <= 1_000_000,
            -1_000_000 <= cp <= 1_000_000,
            -1_000_000 <= sp <= 1_000_000,
    ;
    lemma_scaled_product(cy * cp);
    lemma_scaled_product(sy * cp);
    let fx_ = fx::tdiv(cy * cp, 1_000_000);
    let fz_ = fx::tdiv(sy * cp, 1_000_000);
    let ex = cy * cp - fx_ * 1_000_000;
    let ez = sy * cp - fz_ * 1_000_000;
    assert((fx_ * 1_000_000) * (fx_ * 1_000_000) == (fx_ * fx_) * 1_000_000_000_000int)
        by (nonlinear_arith);
    assert((fz_ * 1_000_000) * (fz_ * 1_000_000) == (fz_ * fz_) * 1_000_000_000_000int)
        by (nonlinear_arith);
    assert((fx_ * 1_000_000) * (fx_ * 1_000_000) == (cy * cp) * (cy * cp) - 2 * ((cy * cp) * ex)
        + ex * ex) by (nonlinear_arith)
        requires
            fx_ * 1_000_000 == cy * cp - ex,
    ;
    assert((fz_ * 1_000_000) * (fz_ * 1_000_000) == (sy * cp) * (sy * cp) - 2 * ((sy * cp) * ez)
        + ez * ez) by (nonlinear_arith)
        requires
            fz_ * 1_000_000 == sy * cp - ez,
    ;
    assert((cy * cp) * (cy * cp) + (sy * cp) * (sy * cp) == (cy * cy + sy * sy) * (cp * cp))
        by (nonlinear_arith);
    assert(-1_000_000_000_000_000_000int <= (cy * cp) * ex <= 1_000_000_000_000_000_000int
        && -1_000_000_000_000_000_000int <= (sy * cp) * ez <= 1_000_000_000_000_000_000int && 0
        <= ex * ex <= 1_000_000_000_000int && 0 <= ez * ez <= 1_000_000_000_000int)
        by (nonlinear_arith)
        requires
            -1_000_000_000_000 <= cy * cp <= 1_000_000_000_000,
            -1_000_000_000_000 <= sy * cp <= 1_000_000_000_000,
            -1_000_000 < ex < 1_000_000,
            -1_000_000 < ez < 1_000_000,
    ;
    let u = cy * cy + sy * sy;
    let w = cp * cp + sp * sp;
    assert(u * (cp * cp) >= 1_000_000_000_000int * (cp * cp) - 4_000_000 * 1_000_000_000_000int
        && u * (cp * cp) <= 1_000_000_000_000int * (cp * cp) + 4_000_000 * 1_000_000_000_000int)
        by (nonlinear_arith)
        requires
            1_000_000_000_000 - 4_000_000 <= u <= 1_000_000_000_000 + 4_000_000,
            0 <= cp * cp <= 1_000_000_000_000,
    ;
    let f = spec_front_from(yaw, pitch);
    assert(spec_norm_sq(f) == fx_ * fx_ + sp * sp + fz_ * fz_);
    assert(1_000_000_000_000int * (cp * cp) + 1_000_000_000_000int * (sp * sp)
        == 1_000_000_000_000int * w) by (nonlinear_arith)
        requires
            w == cp * cp + sp * sp,
    ;
    assert((fx_ * fx_ + sp * sp + fz_ * fz_) * 1_000_000_000_000int == (fx_ * fx_)
        * 1_000_000_000_000int + (sp * sp) * 1_000_000_000_000int + (fz_ * fz_)
        * 1_000_000_000_000int) by (nonlinear_arith);
    assert((sp * sp) * 1_000_000_000_000int == 1_000_000_000_000int * (sp * sp))
        by (nonlinear_arith);
    let q = fx_ * fx_ + sp * sp + fz_ * fz_;
    assert(q * 1_000_000_000_000int >= 1_000_000_000_000int * w - 4_000_000 * 1_000_000_000_000int
        - 4_000_000_000_000_000_000int - 2_000_000_000_000int && q * 1_000_000_000_000int
        <= 1_000_000_000_000int * w + 4_000_000 * 1_000_000_000_000int
        + 4_000_000_000_000_000_000int + 2_000_000_000_000int);
    assert(999_990 * 999_990 <= q && q <= 1_000_010 * 1_000_010) by (nonlinear_arith)
        requires
            q * 1_000_000_000_000int >= 1_000_000_000_000int * w - 4_000_000
                * 1_000_000_000_000int - 4_000_000_000_000_000_000int - 2_000_000_000_000int,
            q * 1_000_000_000_000int <= 1_000_000_000_000int * w + 4_000_000
                * 1_000_000_000_000int + 4_000_000_000_000_000_000int + 2_000_000_000_000int,
            1_000_000_000_000 - 4_000_000 <= w <= 1_000_000_000_000 + 4_000_000,
    ;
}

/// A front-vector nudge: add `delta`, renormalize, and keep the result only
/// if it stayed a unit vector; a degenerate candidate (too short to carry a
/// direction) leaves the front unchanged.
pub open spec fn spec_nudge(front: Vec3, delta: Vec3) -> Vec3 {
    let cand = spec_vadd(front, delta);
    if spec_norm_sq(cand) >= 1 && approx_unit(spec_normalize(cand)) {
        spec_normalize(cand)
    } else {
        front
    }
}

impl CameraState {
    /// Front and up unit to within tolerance, pitch inside the clamp cone.
    pub open spec fn well_formed(&self) -> bool {
        approx_unit(self.front) && approx_unit(self.up) && -(PITCH_LIMIT as int) <= self.pitch
            <= PITCH_LIMIT as int
    }

    /// The initial pose: on the positive Z axis looking toward the origin,
    /// world up, yaw at minus ninety degrees, level pitch.
    pub fn new() -> (c: CameraState)
        ensures
            c.position == (Vec3 { x: 0, y: 0, z: 500_000_000i64 }),
            c.front == (Vec3 { x: 0, y: 0, z: -1_000_000i64 }),
            c.up == (Vec3 { x: 0, y: 1_000_000i64, z: 0 }),
            c.yaw == -90_000_000i64,
            c.pitch == 0i64,
            c.well_formed(),
    {
        let c = CameraState {
            position: Vec3 { x: 0, y: 0, z: 500_000_000 },
            front: Vec3 { x: 0, y: 0, z: -1_000_000 },
            up: Vec3 { x: 0, y: 1_000_000, z: 0 },
            yaw: -90_000_000,
            pitch: 0,
        };
        proof {
            assert((-1_000_000int) * (-1_000_000int) == 1_000_000_000_000int) by (nonlinear_arith);
            assert((1_000_000int) * (1_000_000int) == 1_000_000_000_000int) by (nonlinear_arith);
            assert((0int) * (0int) == 0int) by (nonlinear_arith);
        }
        c
    }

    /// Absorb one pointer-move delta. Only honored while pointer lock is
    /// active: yaw decreases with rightward travel, pitch grows with downward
    /// travel and is clamped to `PITCH_LIMIT` either side, so no sequence of
    /// deltas can ever push pitch beyond the cone.
    pub fn apply_pointer_delta(&mut self, dx: i32, dy: i32, locked: bool)
        ensures
            !locked ==> *final(self) == *old(self),
            locked ==> final(self).position == old(self).position && final(self).front == old(
                self,
            ).front && final(self).up == old(self).up,
            locked ==> final(self).yaw as int == fx::spec_sub(
                old(self).yaw as int,
                (dx as int) * (POINTER_SENSITIVITY as int),
            ),
            locked ==> final(self).pitch as int == clamp_pitch(
                fx::spec_add(old(self).pitch as int, (dy as int) * (POINTER_SENSITIVITY as int)),
            ),
            locked ==> -(PITCH_LIMIT as int) <= final(self).pitch <= PITCH_LIMIT as int,
            old(self).well_formed() ==> final(self).well_formed(),
    {
        if locked {
            self.yaw = fx_sub(self.yaw, (dx as i64) * POINTER_SENSITIVITY);
            let p = fx_add(self.pitch, (dy as i64) * POINTER_SENSITIVITY);
            self.pitch = if p > PITCH_LIMIT {
                PITCH_LIMIT
            } else if p < -PITCH_LIMIT {
                -PITCH_LIMIT
            } else {
                p
            };
        }
    }

    /// Re-derive the front vector from sine/cosine pairs for the current yaw
    /// and pitch. The result is adopted only if it is unit to within
    /// tolerance — which every faithful sine/cosine pair yields — otherwise
    /// the pose is left unchanged and `false` comes back.
    pub fn set_front_from_angles(&mut self, yaw_sc: SinCos, pitch_sc: SinCos) -> (applied: bool)
        ensures
            applied == approx_unit(spec_front_from(yaw_sc, pitch_sc)),
            sincos_wf(yaw_sc) && sincos_wf(pitch_sc) ==> applied,
            applied ==> *final(self) == (CameraState {
                front: spec_front_from(yaw_sc, pitch_sc),
                ..*old(self)
            }),
            !applied ==> *final(self) == *old(self),
            old(self).well_formed() ==> final(self).well_formed(),
    {
        proof {
            if sincos_wf(yaw_sc) && sincos_wf(pitch_sc) {
                lemma_front_from_angles_unit(yaw_sc, pitch_sc);
            }
        }
        let f = Vec3 {
            x: crate::fx::fx_mul(yaw_sc.cos, pitch_sc.cos),
            y: pitch_sc.sin,
            z: crate::fx::fx_mul(yaw_sc.sin, pitch_sc.cos),
        };
        if is_approx_unit(f) {
            self.front = f;
            true
        } else {
            false
        }
    }

    /// Apply one discrete key operation: translate along front, strafe along
    /// `front x up`, move along up, or nudge the front vector by a fixed
    /// increment along a world axis followed by renormalization. Yaw, pitch
    /// and up are untouched.
    pub fn apply_key(&mut self, key: CameraKey)
        ensures
            final(self).up == old(self).up,
            final(self).yaw == old(self).yaw,
            final(self).pitch == old(self).pitch,
            final(self).position == match key {
                CameraKey::Forward => spec_vadd(
                    old(self).position,
                    spec_vscale(CAMERA_SPEED as int, old(self).front),
                ),
                CameraKey::Backward => spec_vsub(
                    old(self).position,
                    spec_vscale(CAMERA_SPEED as int, old(self).front),
                ),
                CameraKey::StrafeLeft => spec_vadd(
                    old(self).position,
                    spec_vscale(CAMERA_SPEED as int, spec_cross(old(self).front, old(self).up)),
                ),
                CameraKey::StrafeRight => spec_vsub(
                    old(self).position,
                    spec_vscale(CAMERA_SPEED as int, spec_cross(old(self).front, old(self).up)),
                ),
                CameraKey::Descend => spec_vsub(
                    old(self).position,
                    spec_vscale(CAMERA_SPEED as int, old(self).up),
                ),
                CameraKey::Ascend => spec_vadd(
                    old(self).position,
                    spec_vscale(CAMERA_SPEED as int, old(self).up),
                ),
                _ => old(self).position,
            },
            final(self).front == match key {
                CameraKey::TiltUp => spec_nudge(
                    old(self).front,
                    Vec3 { x: 0, y: (-ROTATION_STEP) as i64, z: 0 },
                ),
                CameraKey::TiltDown => spec_nudge(old(self).front, Vec3 { x: 0, y: ROTATION_STEP, z: 0 }),
                CameraKey::TiltRight => spec_nudge(
                    old(self).front,
                    Vec3 { x: (-ROTATION_STEP) as i64, y: 0, z: 0 },
                ),
                CameraKey::TiltLeft => spec_nudge(old(self).front, Vec3 { x: ROTATION_STEP, y: 0, z: 0 }),
                _ => old(self).front,
            },
            old(self).well_formed() ==> final(self).well_formed(),
    {
        match key {
            CameraKey::Forward => {
                self.position = vadd(self.position, vscale(CAMERA_SPEED, self.front));
            },
            CameraKey::Backward => {
                self.position = vsub(self.position, vscale(CAMERA_SPEED, self.front));
            },
            CameraKey::StrafeLeft => {
                self.position = vadd(
                    self.position,
                    vscale(CAMERA_SPEED, cross(self.front, self.up)),
                );
            },
            CameraKey::StrafeRight => {
                self.position = vsub(
                    self.position,
                    vscale(CAMERA_SPEED, cross(self.front, self.up)),
                );
            },
            CameraKey::Descend => {
                self.position = vsub(self.position, vscale(CAMERA_SPEED, self.up));
            },
            CameraKey::Ascend => {
                self.position = vadd(self.position, vscale(CAMERA_SPEED, self.up));
            },
            CameraKey::TiltUp => {
                self.front = nudge_front(self.front, Vec3 { x: 0, y: -ROTATION_STEP, z: 0 });
            },
            CameraKey::TiltDown => {
                self.front = nudge_front(self.front, Vec3 { x: 0, y: ROTATION_STEP, z: 0 });
            },
            CameraKey::TiltRight => {
                self.front = nudge_front(self.front, Vec3 { x: -ROTATION_STEP, y: 0, z: 0 });
            },
            CameraKey::TiltLeft => {
                self.front = nudge_front(self.front, Vec3 { x: ROTATION_STEP, y: 0, z: 0 });
            },
        }
    }
}

/// On a unit front vector, a rotation-step nudge is never degenerate: the
/// candidate keeps at least half a unit of length, so the nudge always
/// renormalizes instead of falling back to the old front.
pub proof fn lemma_nudge_effective(front: Vec3, delta: Vec3)
    requires
        approx_unit(front),
        -ROTATION_STEP <= delta.x <= ROTATION_STEP,
        -ROTATION_STEP <= delta.y <= ROTATION_STEP,
        -ROTATION_STEP <= delta.z <= ROTATION_STEP,
    ensures
        spec_norm_sq(spec_vadd(front, delta)) >= 250_000_000_000,
        spec_nudge(front, delta) == spec_normalize(spec_vadd(front, delta)),
{
    let x = front.x as int;
    let y = front.y as int;
    let z = front.z as int;
    let dx = delta.x as int;
    let dy = delta.y as int;
    let dz = delta.z as int;
    assert(0 <= x * x && 0 <= y * y && 0 <= z * z) by (nonlinear_arith);
    assert(-1_000_010 <= x <= 1_000_010 && -1_000_010 <= y <= 1_000_010 && -1_000_010 <= z
        <= 1_000_010) by (nonlinear_arith)
        requires
            x * x + y * y + z * z <= 1_000_010 * 1_000_010,
            0 <= x * x,
            0 <= y * y,
            0 <= z * z,
    ;
    let cand = spec_vadd(front, delta);
    assert(cand.x == x + dx && cand.y == y + dy && cand.z == z + dz);
    assert((x + dx) * (x + dx) + (y + dy) * (y + dy) + (z + dz) * (z + dz) >= 250_000_000_000int)
        by (nonlinear_arith)
        requires
            x * x + y * y + z * z >= 999_990 * 999_990,
            -1_000_010 <= x <= 1_000_010,
            -1_000_010 <= y <= 1_000_010,
            -1_000_010 <= z <= 1_000_010,
            -8_727 <= dx <= 8_727,
            -8_727 <= dy <= 8_727,
            -8_727 <= dz <= 8_727,
    ;
    crate::vec3::lemma_normalize_approx_unit(cand);
}

/// Nudge `front` by `delta` and renormalize, keeping the old vector when the
/// candidate is degenerate or the renormalized result drifted out of
/// tolerance. A unit front therefore stays unit under every key sequence.
fn nudge_front(front: Vec3, delta: Vec3) -> (r: Vec3)
    ensures
        r == spec_nudge(front, delta),
        approx_unit(front) ==> approx_unit(r),
{
    let cand = vadd(front, delta);
    let nsq = norm_sq(cand);
    if nsq >= 1 {
        let renorm = normalize(cand);
        if is_approx_unit(renorm) {
            return renorm;
        }
    }
    front
}

} // verus!
