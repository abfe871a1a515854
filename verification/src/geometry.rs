//! Procedural geometry: shape templates, rigid/scaling transforms, and the
//! flattening of point sequences into vertex buffers.
//!
//! A vertex buffer is a flat `Vec<i64>` of fixed-point coordinates in
//! `(x, y, z, x, y, z, ...)` order, ready for conversion to the renderer's
//! native float format at the boundary.

use vstd::prelude::*;
use crate::fx;
use crate::fx::SCALE;
use crate::vec3::{Vec3, spec_vadd, spec_vsub, spec_dot, spec_norm, vadd, vsub, dot, norm};

verus! {

/// A 3x3 matrix, stored as three row vectors of fixed-point scalars.
#[derive(Clone, Copy, Debug, PartialEq, Eq, Structural)]
pub struct Mat3 {
    pub rx: Vec3,
    pub ry: Vec3,
    pub rz: Vec3,
}

/// A rotation, a scale and a translation, applied to a local vertex as
/// `world = R * (S * local) + T`. Purely a value, recomputed every use.
#[derive(Clone, Copy, Debug, PartialEq, Eq, Structural)]
pub struct Transform {
    pub rot: Mat3,
    pub scale: Mat3,
    pub translation: Vec3,
}

/// Matrix application: each result coordinate is the saturating fixed-point
/// dot product of one row with the vector.
pub open spec fn spec_mat3_apply(m: Mat3, v: Vec3) -> Vec3 {
    Vec3 {
        x: spec_dot(m.rx, v) as i64,
        y: spec_dot(m.ry, v) as i64,
        z: spec_dot(m.rz, v) as i64,
    }
}

pub open spec fn spec_apply_transform(t: Transform, v: Vec3) -> Vec3 {
    spec_vadd(spec_mat3_apply(t.rot, spec_mat3_apply(t.scale, v)), t.translation)
}

pub open spec fn spec_mat3_identity() -> Mat3 {
    Mat3 {
        rx: Vec3 { x: SCALE, y: 0, z: 0 },
        ry: Vec3 { x: 0, y: SCALE, z: 0 },
        rz: Vec3 { x: 0, y: 0, z: SCALE },
    }
}

/// The transform that leaves every vertex where it is.
pub open spec fn spec_identity_transform() -> Transform {
    Transform {
        rot: spec_mat3_identity(),
        scale: spec_mat3_identity(),
        translation: Vec3 { x: 0, y: 0, z: 0 },
    }
}

pub fn mat3_apply(m: &Mat3, v: Vec3) -> (r: Vec3)
    ensures
        r == spec_mat3_apply(*m, v),
{
    Vec3 { x: dot(m.rx, v), y: dot(m.ry, v), z: dot(m.rz, v) }
}

pub fn apply_transform(t: &Transform, v: Vec3) -> (r: Vec3)
    ensures
        r == spec_apply_transform(*t, v),
{
    vadd(mat3_apply(&t.rot, mat3_apply(&t.scale, v)), t.translation)
}

pub fn mat3_identity() -> (m: Mat3)
    ensures
        m == spec_mat3_identity(),
{
    Mat3 {
        rx: Vec3 { x: SCALE, y: 0, z: 0 },
        ry: Vec3 { x: 0, y: SCALE, z: 0 },
        rz: Vec3 { x: 0, y: 0, z: SCALE },
    }
}

pub fn identity_transform() -> (t: Transform)
    ensures
        t == spec_identity_transform(),
{
    Transform {
        rot: mat3_identity(),
        scale: mat3_identity(),
        translation: Vec3 { x: 0, y: 0, z: 0 },
    }
}

/// The diagonal matrix that scales every axis by the fixed-point factor `s`.
pub fn uniform_scale(s: i64) -> (m: Mat3)
    ensures
        m == spec_uniform_scale(s as int),
{
    Mat3 {
        rx: Vec3 { x: s, y: 0, z: 0 },
        ry: Vec3 { x: 0, y: s, z: 0 },
        rz: Vec3 { x: 0, y: 0, z: s },
    }
}

pub open spec fn spec_uniform_scale(s: int) -> Mat3 {
    Mat3 {
        rx: Vec3 { x: s as i64, y: 0, z: 0 },
        ry: Vec3 { x: 0, y: s as i64, z: 0 },
        rz: Vec3 { x: 0, y: 0, z: s as i64 },
    }
}

/// Applying the identity transform moves no vertex: rotation and scale by the
/// identity matrix reproduce each coordinate exactly, and the translation
/// adds zero.
pub proof fn lemma_identity_transform_fixes(v: Vec3)
    ensures
        spec_apply_transform(spec_identity_transform(), v) == v,
{
    lemma_mat3_identity_fixes(v);
}

proof fn lemma_mat3_identity_fixes(v: Vec3)
    ensures
        spec_mat3_apply(spec_mat3_identity(), v) == v,
{
    lemma_scale_one_exact(v.x as int);
    lemma_scale_one_exact(v.y as int);
    lemma_scale_one_exact(v.z as int);
    assert(spec_mat3_apply(spec_mat3_identity(), v) == v);
}

/// Multiplying by the fixed-point unit is exact: `(SCALE * a) / SCALE == a`.
proof fn lemma_scale_one_exact(a: int)
    by (nonlinear_arith)
    requires
        i64::MIN as int <= a <= i64::MAX as int,
    ensures
        fx::spec_mul(SCALE as int, a) == a,
        fx::spec_mul(0, a) == 0,
{
}

/// Whether `buf` is the flattening of `pts`: three scalars per point, in
/// `(x, y, z)` order, preserving point order.
pub open spec fn is_flat_of(buf: Seq<i64>, pts: Seq<Vec3>) -> bool {
    buf.len() == 3 * pts.len() && forall|i: int|
        0 <= i < pts.len() ==> buf[3 * i] == (#[trigger] pts[i]).x && buf[3 * i + 1] == pts[i].y
            && buf[3 * i + 2] == pts[i].z
}

/// Flatten an arbitrary point sequence into a vertex buffer in sequence
/// order, with no transform (trajectories are stored in world space).
pub fn build_from_points(points: &Vec<Vec3>) -> (buf: Vec<i64>)
    ensures
        is_flat_of(buf@, points@),
{
    let n = points.len();
    let mut buf: Vec<i64> = Vec::new();
    let mut i: usize = 0;
    while i < n
        invariant
            n == points@.len(),
            0 <= i <= n,
            buf@.len() == 3 * i,
            forall|j: int|
                0 <= j < i ==> buf@[3 * j] == (#[trigger] points@[j]).x && buf@[3 * j + 1]
                    == points@[j].y && buf@[3 * j + 2] == points@[j].z,
        decreases n - i,
    {
        let p = points[i];
        buf.push(p.x);
        buf.push(p.y);
        buf.push(p.z);
        i = i + 1;
    }
    buf
}

/// Transform every template vertex by `R * (S * local) + T` and flatten the
/// result, preserving template order. The vertex count equals the template's.
pub fn build_from_template(template: &Vec<Vec3>, t: &Transform) -> (buf: Vec<i64>)
    ensures
        buf@.len() == 3 * template@.len(),
        forall|i: int|
            0 <= i < template@.len() ==> {
                let w = spec_apply_transform(*t, #[trigger] template@[i]);
                buf@[3 * i] == w.x && buf@[3 * i + 1] == w.y && buf@[3 * i + 2] == w.z
            },
{
    let n = template.len();
    let mut buf: Vec<i64> = Vec::new();
    let mut i: usize = 0;
    while i < n
        invariant
            n == template@.len(),
            0 <= i <= n,
            buf@.len() == 3 * i,
            forall|j: int|
                0 <= j < i ==> {
                    let w = spec_apply_transform(*t, #[trigger] template@[j]);
                    buf@[3 * j] == w.x && buf@[3 * j + 1] == w.y && buf@[3 * j + 2] == w.z
                },
        decreases n - i,
    {
        let w = apply_transform(t, template[i]);
        buf.push(w.x);
        buf.push(w.y);
        buf.push(w.z);
        i = i + 1;
    }
    buf
}

/// The unit square in the XY plane as two triangles (six vertices).
pub open spec fn spec_square_template() -> Seq<Vec3> {
    seq![
        Vec3 { x: 0, y: 0, z: 0 },
        Vec3 { x: 0, y: SCALE, z: 0 },
        Vec3 { x: SCALE, y: SCALE, z: 0 },
        Vec3 { x: 0, y: 0, z: 0 },
        Vec3 { x: SCALE, y: 0, z: 0 },
        Vec3 { x: SCALE, y: SCALE, z: 0 },
    ]
}

pub fn square_template() -> (t: Vec<Vec3>)
    ensures
        t@ == spec_square_template(),
{
    let mut t: Vec<Vec3> = Vec::new();
    t.push(Vec3 { x: 0, y: 0, z: 0 });
    t.push(Vec3 { x: 0, y: SCALE, z: 0 });
    t.push(Vec3 { x: SCALE, y: SCALE, z: 0 });
    t.push(Vec3 { x: 0, y: 0, z: 0 });
    t.push(Vec3 { x: SCALE, y: 0, z: 0 });
    t.push(Vec3 { x: SCALE, y: SCALE, z: 0 });
    proof {
        assert(t@ =~= spec_square_template());
    }
    t
}

/// Barb offset of the arrow glyph: one sixth of a unit, rounded to the
/// nearest fixed-point step.
pub const ARROW_BARB: i64 = 166_667;

/// Barb root of the arrow glyph: two thirds of a unit, rounded to the nearest
/// fixed-point step.
pub const ARROW_ROOT: i64 = 666_667;

/// The arrow glyph: an open line strip along the local Y axis, one unit long,
/// with two pairs of barbs at the tip (nine vertices).
pub open spec fn spec_arrow_template() -> Seq<Vec3> {
    seq![
        Vec3 { x: 0, y: 0, z: 0 },
        Vec3 { x: 0, y: SCALE, z: 0 },
        Vec3 { x: (-ARROW_BARB) as i64, y: ARROW_ROOT, z: 0 },
        Vec3 { x: 0, y: SCALE, z: 0 },
        Vec3 { x: ARROW_BARB, y: ARROW_ROOT, z: 0 },
        Vec3 { x: 0, y: SCALE, z: 0 },
        Vec3 { x: 0, y: ARROW_ROOT, z: (-ARROW_BARB) as i64 },
        Vec3 { x: 0, y: SCALE, z: 0 },
        Vec3 { x: 0, y: ARROW_ROOT, z: ARROW_BARB },
    ]
}

pub fn arrow_template() -> (t: Vec<Vec3>)
    ensures
        t@ == spec_arrow_template(),
{
    let mut t: Vec<Vec3> = Vec::new();
    t.push(Vec3 { x: 0, y: 0, z: 0 });
    t.push(Vec3 { x: 0, y: SCALE, z: 0 });
    t.push(Vec3 { x: -ARROW_BARB, y: ARROW_ROOT, z: 0 });
    t.push(Vec3 { x: 0, y: SCALE, z: 0 });
    t.push(Vec3 { x: ARROW_BARB, y: ARROW_ROOT, z: 0 });
    t.push(Vec3 { x: 0, y: SCALE, z: 0 });
    t.push(Vec3 { x: 0, y: ARROW_ROOT, z: -ARROW_BARB });
    t.push(Vec3 { x: 0, y: SCALE, z: 0 });
    t.push(Vec3 { x: 0, y: ARROW_ROOT, z: ARROW_BARB });
    proof {
        assert(t@ =~= spec_arrow_template());
    }
    t
}

/// A two-point segment from `start` to `end`, flattened (six scalars).
pub fn build_segment(start: Vec3, end: Vec3) -> (buf: Vec<i64>)
    ensures
        buf@ == seq![start.x, start.y, start.z, end.x, end.y, end.z],
{
    let mut buf: Vec<i64> = Vec::new();
    buf.push(start.x);
    buf.push(start.y);
    buf.push(start.z);
    buf.push(end.x);
    buf.push(end.y);
    buf.push(end.z);
    proof {
        assert(buf@ =~= seq![start.x, start.y, start.z, end.x, end.y, end.z]);
    }
    buf
}

/// The uniform scale of a vector-field glyph drawn from `start` to `end`:
/// the distance between them, clipped so that the glyph never exceeds
/// `clip` visually.
pub open spec fn spec_arrow_scale(start: Vec3, end: Vec3, clip: int) -> int {
    let m = spec_norm(spec_vsub(end, start));
    if m > clip {
        clip
    } else {
        m
    }
}

pub fn arrow_scale(start: Vec3, end: Vec3, clip: i64) -> (s: i64)
    ensures
        s as int == spec_arrow_scale(start, end, clip as int),
{
    let m = norm(vsub(end, start));
    if m > clip {
        clip
    } else {
        m
    }
}

/// Build the glyph for the vector from `start` to `end`: the arrow template,
/// rotated by `rot` (the minimal rotation taking the template's canonical Y
/// axis onto `end - start`, supplied by the caller), scaled uniformly by the
/// clipped distance, and translated to `start`. A zero-length vector has no
/// well-defined rotation: the degenerate call returns `None`, meaning
/// "undefined, skip the draw".
pub fn arrow_between(start: Vec3, end: Vec3, clip: i64, rot: &Mat3) -> (buf: Option<Vec<i64>>)
    ensures
        buf is None <==> start == end,
        buf matches Some(b) ==> {
            &&& b@.len() == 27
            &&& forall|i: int|
                0 <= i < 9 ==> {
                    let t = Transform {
                        rot: *rot,
                        scale: spec_uniform_scale(spec_arrow_scale(start, end, clip as int)),
                        translation: start,
                    };
                    let w = spec_apply_transform(t, #[trigger] spec_arrow_template()[i]);
                    b@[3 * i] == w.x && b@[3 * i + 1] == w.y && b@[3 * i + 2] == w.z
                }
        },
{
    if start == end {
        return None;
    }
    let s = arrow_scale(start, end, clip);
    let template = arrow_template();
    let t = Transform { rot: *rot, scale: uniform_scale(s), translation: start };
    Some(build_from_template(&template, &t))
}

} // verus!
