//! 4x4 matrices for the view and projection transforms and their product,
//! in saturating fixed-point arithmetic.

use vstd::prelude::*;
use crate::fx;
use crate::fx::{fx_add, fx_sub, fx_mul, fx_div, SCALE};
use crate::vec3::{Vec3, spec_cross, spec_dot, spec_norm_sq, spec_normalize, cross, dot, norm_sq, normalize};

verus! {

/// A row of a 4x4 matrix.
#[derive(Clone, Copy, Debug, PartialEq, Eq, Structural)]
pub struct Vec4 {
    pub x: i64,
    pub y: i64,
    pub z: i64,
    pub w: i64,
}

/// A 4x4 matrix, stored as four row vectors of fixed-point scalars.
#[derive(Clone, Copy, Debug, PartialEq, Eq, Structural)]
pub struct Mat4 {
    pub r0: Vec4,
    pub r1: Vec4,
    pub r2: Vec4,
    pub r3: Vec4,
}

/// Saturating fixed-point dot product of two rows.
pub open spec fn spec_dot4(a: Vec4, b: Vec4) -> int {
    fx::spec_add(
        fx::spec_add(
            fx::spec_add(
                fx::spec_mul(a.x as int, b.x as int),
                fx::spec_mul(a.y as int, b.y as int),
            ),
            fx::spec_mul(a.z as int, b.z as int),
        ),
        fx::spec_mul(a.w as int, b.w as int),
    )
}

fn dot4(a: Vec4, b: Vec4) -> (r: i64)
    ensures
        r as int == spec_dot4(a, b),
{
    fx_add(
        fx_add(fx_add(fx_mul(a.x, b.x), fx_mul(a.y, b.y)), fx_mul(a.z, b.z)),
        fx_mul(a.w, b.w),
    )
}

pub open spec fn spec_col(m: Mat4, c: int) -> Vec4 {
    if c == 0 {
        Vec4 { x: m.r0.x, y: m.r1.x, z: m.r2.x, w: m.r3.x }
    } else if c == 1 {
        Vec4 { x: m.r0.y, y: m.r1.y, z: m.r2.y, w: m.r3.y }
    } else if c == 2 {
        Vec4 { x: m.r0.z, y: m.r1.z, z: m.r2.z, w: m.r3.z }
    } else {
        Vec4 { x: m.r0.w, y: m.r1.w, z: m.r2.w, w: m.r3.w }
    }
}

pub open spec fn spec_mul_row(a: Vec4, b: Mat4) -> Vec4 {
    Vec4 {
        x: spec_dot4(a, spec_col(b, 0)) as i64,
        y: spec_dot4(a, spec_col(b, 1)) as i64,
        z: spec_dot4(a, spec_col(b, 2)) as i64,
        w: spec_dot4(a, spec_col(b, 3)) as i64,
    }
}

/// Matrix product: entry (r, c) is the saturating fixed-point dot product of
/// row r of `a` with column c of `b`.
pub open spec fn spec_mat4_mul(a: Mat4, b: Mat4) -> Mat4 {
    Mat4 {
        r0: spec_mul_row(a.r0, b),
        r1: spec_mul_row(a.r1, b),
        r2: spec_mul_row(a.r2, b),
        r3: spec_mul_row(a.r3, b),
    }
}

fn col(m: &Mat4, c: usize) -> (r: Vec4)
    requires
        c < 4,
    ensures
        r == spec_col(*m, c as int),
{
    if c == 0 {
        Vec4 { x: m.r0.x, y: m.r1.x, z: m.r2.x, w: m.r3.x }
    } else if c == 1 {
        Vec4 { x: m.r0.y, y: m.r1.y, z: m.r2.y, w: m.r3.y }
    } else if c == 2 {
        Vec4 { x: m.r0.z, y: m.r1.z, z: m.r2.z, w: m.r3.z }
    } else {
        Vec4 { x: m.r0.w, y: m.r1.w, z: m.r2.w, w: m.r3.w }
    }
}

pub fn mat4_mul(a: &Mat4, b: &Mat4) -> (r: Mat4)
    ensures
        r == spec_mat4_mul(*a, *b),
{
    let c0 = col(b, 0);
    let c1 = col(b, 1);
    let c2 = col(b, 2);
    let c3 = col(b, 3);
    Mat4 {
        r0: Vec4 { x: dot4(a.r0, c0), y: dot4(a.r0, c1), z: dot4(a.r0, c2), w: dot4(a.r0, c3) },
        r1: Vec4 { x: dot4(a.r1, c0), y: dot4(a.r1, c1), z: dot4(a.r1, c2), w: dot4(a.r1, c3) },
        r2: Vec4 { x: dot4(a.r2, c0), y: dot4(a.r2, c1), z: dot4(a.r2, c2), w: dot4(a.r2, c3) },
        r3: Vec4 { x: dot4(a.r3, c0), y: dot4(a.r3, c1), z: dot4(a.r3, c2), w: dot4(a.r3, c3) },
    }
}

pub open spec fn spec_mat4_identity() -> Mat4 {
    Mat4 {
        r0: Vec4 { x: SCALE, y: 0, z: 0, w: 0 },
        r1: Vec4 { x: 0, y: SCALE, z: 0, w: 0 },
        r2: Vec4 { x: 0, y: 0, z: SCALE, w: 0 },
        r3: Vec4 { x: 0, y: 0, z: 0, w: SCALE },
    }
}

/// The model matrix for content drawn directly in world space.
pub fn mat4_identity() -> (m: Mat4)
    ensures
        m == spec_mat4_identity(),
{
    Mat4 {
        r0: Vec4 { x: SCALE, y: 0, z: 0, w: 0 },
        r1: Vec4 { x: 0, y: SCALE, z: 0, w: 0 },
        r2: Vec4 { x: 0, y: 0, z: SCALE, w: 0 },
        r3: Vec4 { x: 0, y: 0, z: 0, w: SCALE },
    }
}

/// Multiplying by the identity model matrix changes nothing: the combined
/// transform of world-space content is exactly `projection * view`.
pub proof fn lemma_mat4_mul_identity(m: Mat4)
    ensures
        spec_mat4_mul(m, spec_mat4_identity()) == m,
{
    lemma_row_mul_identity(m.r0);
    lemma_row_mul_identity(m.r1);
    lemma_row_mul_identity(m.r2);
    lemma_row_mul_identity(m.r3);
}

proof fn lemma_row_mul_identity(a: Vec4)
    ensures
        spec_mul_row(a, spec_mat4_identity()) == a,
{
    lemma_unit_mul(a.x as int);
    lemma_unit_mul(a.y as int);
    lemma_unit_mul(a.z as int);
    lemma_unit_mul(a.w as int);
}

/// Fixed-point products with the unit and with zero are exact.
proof fn lemma_unit_mul(a: int)
    by (nonlinear_arith)
    requires
        i64::MIN as int <= a <= i64::MAX as int,
    ensures
        fx::spec_mul(a, SCALE as int) == a,
        fx::spec_mul(SCALE as int, a) == a,
        fx::spec_mul(a, 0) == 0,
        fx::spec_mul(0, a) == 0,
{
}

/// Saturating negation.
fn neg(a: i64) -> (r: i64)
    ensures
        r as int == fx::spec_sub(0, a as int),
{
    fx_sub(0, a)
}

/// The right-handed look-at view matrix, built from the camera basis
/// `f = normalize(front)`, `s = normalize(f x up)`, `u = s x f`
/// (defined only for a non-degenerate basis; see `look_at_rh`).
pub open spec fn spec_look_at(eye: Vec3, front: Vec3, up: Vec3) -> Mat4 {
    let f = spec_normalize(front);
    let s = spec_normalize(spec_cross(f, up));
    let u = spec_cross(s, f);
    Mat4 {
        r0: Vec4 { x: s.x, y: s.y, z: s.z, w: fx::spec_sub(0, spec_dot(s, eye)) as i64 },
        r1: Vec4 { x: u.x, y: u.y, z: u.z, w: fx::spec_sub(0, spec_dot(u, eye)) as i64 },
        r2: Vec4 {
            x: fx::spec_sub(0, f.x as int) as i64,
            y: fx::spec_sub(0, f.y as int) as i64,
            z: fx::spec_sub(0, f.z as int) as i64,
            w: spec_dot(f, eye) as i64,
        },
        r3: Vec4 { x: 0, y: 0, z: 0, w: SCALE },
    }
}

/// Whether the look-at basis is defined: the front vector and its cross
/// product with up must both carry a direction.
pub open spec fn look_at_defined(front: Vec3, up: Vec3) -> bool {
    spec_norm_sq(front) >= 1 && spec_norm_sq(spec_cross(spec_normalize(front), up)) >= 1
}

/// The view matrix `look-at(eye, eye + front, up)`. A front vector parallel
/// to up (or zero) has no well-defined sideways axis: the degenerate call
/// returns `None`, meaning "undefined, skip the draw".
pub fn look_at_rh(eye: Vec3, front: Vec3, up: Vec3) -> (r: Option<Mat4>)
    ensures
        r is Some <==> look_at_defined(front, up),
        r matches Some(m) ==> m == spec_look_at(eye, front, up),
{
    if norm_sq(front) < 1 {
        return None;
    }
    let f = normalize(front);
    let s_raw = cross(f, up);
    if norm_sq(s_raw) < 1 {
        return None;
    }
    let s = normalize(s_raw);
    let u = cross(s, f);
    Some(
        Mat4 {
            r0: Vec4 { x: s.x, y: s.y, z: s.z, w: neg(dot(s, eye)) },
            r1: Vec4 { x: u.x, y: u.y, z: u.z, w: neg(dot(u, eye)) },
            r2: Vec4 { x: neg(f.x), y: neg(f.y), z: neg(f.z), w: dot(f, eye) },
            r3: Vec4 { x: 0, y: 0, z: 0, w: SCALE },
        },
    )
}

/// The perspective projection with the given aspect ratio, reciprocal of the
/// tangent of half the vertical field of view, and near/far planes.
pub open spec fn spec_perspective(aspect: int, inv_tan_half_fovy: int, near: int, far: int) -> Mat4 {
    let depth = fx::spec_sub(far, near);
    Mat4 {
        r0: Vec4 { x: fx::spec_div(inv_tan_half_fovy, aspect) as i64, y: 0, z: 0, w: 0 },
        r1: Vec4 { x: 0, y: inv_tan_half_fovy as i64, z: 0, w: 0 },
        r2: Vec4 {
            x: 0,
            y: 0,
            z: fx::spec_sub(0, fx::spec_div(fx::spec_add(far, near), depth)) as i64,
            w: fx::spec_sub(
                0,
                fx::spec_div(fx::spec_mul(2 * (SCALE as int), fx::spec_mul(far, near)), depth),
            ) as i64,
        },
        r3: Vec4 { x: 0, y: 0, z: (-SCALE) as i64, w: 0 },
    }
}

/// Build the perspective projection. The trigonometric factor
/// `1 / tan(fovy / 2)` is supplied by the caller; the aspect ratio must be
/// nonzero and the near and far planes distinct.
pub fn perspective(aspect: i64, inv_tan_half_fovy: i64, near: i64, far: i64) -> (m: Mat4)
    requires
        aspect != 0,
        near != far,
    ensures
        m == spec_perspective(aspect as int, inv_tan_half_fovy as int, near as int, far as int),
{
    let depth = fx_sub(far, near);
    Mat4 {
        r0: Vec4 { x: fx_div(inv_tan_half_fovy, aspect), y: 0, z: 0, w: 0 },
        r1: Vec4 { x: 0, y: inv_tan_half_fovy, z: 0, w: 0 },
        r2: Vec4 {
            x: 0,
            y: 0,
            z: neg(fx_div(fx_add(far, near), depth)),
            w: neg(fx_div(fx_mul(2 * SCALE, fx_mul(far, near)), depth)),
        },
        r3: Vec4 { x: 0, y: 0, z: -SCALE, w: 0 },
    }
}

/// The orthographic box projection over `[left, right] x [bottom, top] x
/// [near, far]`, each pair distinct.
pub open spec fn spec_orthographic(
    left: int,
    right: int,
    bottom: int,
    top: int,
    near: int,
    far: int,
) -> Mat4 {
    let w = fx::spec_sub(right, left);
    let h = fx::spec_sub(top, bottom);
    let d = fx::spec_sub(far, near);
    Mat4 {
        r0: Vec4 {
            x: fx::spec_div(2 * (SCALE as int), w) as i64,
            y: 0,
            z: 0,
            w: fx::spec_sub(0, fx::spec_div(fx::spec_add(right, left), w)) as i64,
        },
        r1: Vec4 {
            x: 0,
            y: fx::spec_div(2 * (SCALE as int), h) as i64,
            z: 0,
            w: fx::spec_sub(0, fx::spec_div(fx::spec_add(top, bottom), h)) as i64,
        },
        r2: Vec4 {
            x: 0,
            y: 0,
            z: fx::spec_sub(0, fx::spec_div(2 * (SCALE as int), d)) as i64,
            w: fx::spec_sub(0, fx::spec_div(fx::spec_add(far, near), d)) as i64,
        },
        r3: Vec4 { x: 0, y: 0, z: 0, w: SCALE },
    }
}

pub fn orthographic(left: i64, right: i64, bottom: i64, top: i64, near: i64, far: i64) -> (m: Mat4)
    requires
        left != right,
        bottom != top,
        near != far,
    ensures
        m == spec_orthographic(
            left as int,
            right as int,
            bottom as int,
            top as int,
            near as int,
            far as int,
        ),
{
    let w = fx_sub(right, left);
    let h = fx_sub(top, bottom);
    let d = fx_sub(far, near);
    Mat4 {
        r0: Vec4 { x: fx_div(2 * SCALE, w), y: 0, z: 0, w: neg(fx_div(fx_add(right, left), w)) },
        r1: Vec4 { x: 0, y: fx_div(2 * SCALE, h), z: 0, w: neg(fx_div(fx_add(top, bottom), h)) },
        r2: Vec4 { x: 0, y: 0, z: neg(fx_div(2 * SCALE, d)), w: neg(fx_div(fx_add(far, near), d)) },
        r3: Vec4 { x: 0, y: 0, z: 0, w: SCALE },
    }
}

/// Flatten into the renderer's column-major order.
pub fn to_column_major(m: &Mat4) -> (buf: Vec<i64>)
    ensures
        buf@ == seq![
            m.r0.x, m.r1.x, m.r2.x, m.r3.x,
            m.r0.y, m.r1.y, m.r2.y, m.r3.y,
            m.r0.z, m.r1.z, m.r2.z, m.r3.z,
            m.r0.w, m.r1.w, m.r2.w, m.r3.w,
        ],
{
    let mut buf: Vec<i64> = Vec::new();
    buf.push(m.r0.x);
    buf.push(m.r1.x);
    buf.push(m.r2.x);
    buf.push(m.r3.x);
    buf.push(m.r0.y);
    buf.push(m.r1.y);
    buf.push(m.r2.y);
    buf.push(m.r3.y);
    buf.push(m.r0.z);
    buf.push(m.r1.z);
    buf.push(m.r2.z);
    buf.push(m.r3.z);
    buf.push(m.r0.w);
    buf.push(m.r1.w);
    buf.push(m.r2.w);
    buf.push(m.r3.w);
    proof {
        assert(buf@ =~= seq![
            m.r0.x, m.r1.x, m.r2.x, m.r3.x,
            m.r0.y, m.r1.y, m.r2.y, m.r3.y,
            m.r0.z, m.r1.z, m.r2.z, m.r3.z,
            m.r0.w, m.r1.w, m.r2.w, m.r3.w,
        ]);
    }
    buf
}

} // verus!
