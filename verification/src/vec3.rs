//! Three-dimensional vectors over saturating fixed-point scalars.

use vstd::prelude::*;
use crate::fx;
use crate::fx::{fx_add, fx_sub, fx_mul, SCALE};

verus! {

/// A point or direction in space; each coordinate is a fixed-point scalar.
#[derive(Clone, Copy, Debug, PartialEq, Eq, Structural)]
pub struct Vec3 {
    pub x: i64,
    pub y: i64,
    pub z: i64,
}

pub open spec fn spec_vadd(a: Vec3, b: Vec3) -> Vec3 {
    Vec3 {
        x: fx::spec_add(a.x as int, b.x as int) as i64,
        y: fx::spec_add(a.y as int, b.y as int) as i64,
        z: fx::spec_add(a.z as int, b.z as int) as i64,
    }
}

pub open spec fn spec_vsub(a: Vec3, b: Vec3) -> Vec3 {
    Vec3 {
        x: fx::spec_sub(a.x as int, b.x as int) as i64,
        y: fx::spec_sub(a.y as int, b.y as int) as i64,
        z: fx::spec_sub(a.z as int, b.z as int) as i64,
    }
}

/// Scale every coordinate by the fixed-point factor `s`.
pub open spec fn spec_vscale(s: int, v: Vec3) -> Vec3 {
    Vec3 {
        x: fx::spec_mul(s, v.x as int) as i64,
        y: fx::spec_mul(s, v.y as int) as i64,
        z: fx::spec_mul(s, v.z as int) as i64,
    }
}

pub open spec fn spec_cross(a: Vec3, b: Vec3) -> Vec3 {
    Vec3 {
        x: fx::spec_sub(
            fx::spec_mul(a.y as int, b.z as int),
            fx::spec_mul(a.z as int, b.y as int),
        ) as i64,
        y: fx::spec_sub(
            fx::spec_mul(a.z as int, b.x as int),
            fx::spec_mul(a.x as int, b.z as int),
        ) as i64,
        z: fx::spec_sub(
            fx::spec_mul(a.x as int, b.y as int),
            fx::spec_mul(a.y as int, b.x as int),
        ) as i64,
    }
}

/// Saturating fixed-point dot product.
pub open spec fn spec_dot(a: Vec3, b: Vec3) -> int {
    fx::spec_add(
        fx::spec_add(
            fx::spec_mul(a.x as int, b.x as int),
            fx::spec_mul(a.y as int, b.y as int),
        ),
        fx::spec_mul(a.z as int, b.z as int),
    )
}

/// Exact sum of the squared coordinates (not rescaled, never saturates).
pub open spec fn spec_norm_sq(v: Vec3) -> int {
    (v.x as int) * (v.x as int) + (v.y as int) * (v.y as int) + (v.z as int) * (v.z as int)
}

/// Euclidean length in fixed-point units: the floor square root of the exact
/// sum of squared coordinates, saturated into the scalar range.
pub open spec fn spec_norm(v: Vec3) -> int {
    fx::sat64(fx::sqrt_floor(spec_norm_sq(v) as nat) as int)
}

pub fn vadd(a: Vec3, b: Vec3) -> (r: Vec3)
    ensures
        r == spec_vadd(a, b),
{
    Vec3 { x: fx_add(a.x, b.x), y: fx_add(a.y, b.y), z: fx_add(a.z, b.z) }
}

pub fn vsub(a: Vec3, b: Vec3) -> (r: Vec3)
    ensures
        r == spec_vsub(a, b),
{
    Vec3 { x: fx_sub(a.x, b.x), y: fx_sub(a.y, b.y), z: fx_sub(a.z, b.z) }
}

pub fn vscale(s: i64, v: Vec3) -> (r: Vec3)
    ensures
        r == spec_vscale(s as int, v),
{
    Vec3 { x: fx_mul(s, v.x), y: fx_mul(s, v.y), z: fx_mul(s, v.z) }
}

pub fn cross(a: Vec3, b: Vec3) -> (r: Vec3)
    ensures
        r == spec_cross(a, b),
{
    Vec3 {
        x: fx_sub(fx_mul(a.y, b.z), fx_mul(a.z, b.y)),
        y: fx_sub(fx_mul(a.z, b.x), fx_mul(a.x, b.z)),
        z: fx_sub(fx_mul(a.x, b.y), fx_mul(a.y, b.x)),
    }
}

pub fn dot(a: Vec3, b: Vec3) -> (r: i64)
    ensures
        r as int == spec_dot(a, b),
{
    fx_add(fx_add(fx_mul(a.x, b.x), fx_mul(a.y, b.y)), fx_mul(a.z, b.z))
}

/// Exact squared length; three squares of `i64` values always fit in `u128`.
pub fn norm_sq(v: Vec3) -> (r: u128)
    ensures
        r as int == spec_norm_sq(v),
{
    proof {
        lemma_squares_fit(v.x as int, v.y as int, v.z as int);
    }
    let xx: u128 = square_u128(v.x);
    let yy: u128 = square_u128(v.y);
    let zz: u128 = square_u128(v.z);
    xx + yy + zz
}

/// The square of an `i64`, as an exact unsigned wide value.
fn square_u128(a: i64) -> (r: u128)
    ensures
        r as int == (a as int) * (a as int),
{
    proof {
        assert(0 <= (a as int) * (a as int)
            <= 0x4000_0000_0000_0000_0000_0000_0000_0000int) by (nonlinear_arith)
            requires
                i64::MIN as int <= a as int <= i64::MAX as int,
        ;
    }
    let w: i128 = (a as i128) * (a as i128);
    w as u128
}

proof fn lemma_squares_fit(x: int, y: int, z: int)
    by (nonlinear_arith)
    requires
        i64::MIN as int <= x <= i64::MAX as int,
        i64::MIN as int <= y <= i64::MAX as int,
        i64::MIN as int <= z <= i64::MAX as int,
    ensures
        0 <= x * x <= 0x4000_0000_0000_0000_0000_0000_0000_0000int,
        0 <= y * y <= 0x4000_0000_0000_0000_0000_0000_0000_0000int,
        0 <= z * z <= 0x4000_0000_0000_0000_0000_0000_0000_0000int,
{
}

/// Length tolerance for "unit" vectors, in fixed-point steps.
pub const UNIT_TOL: i64 = 10;

/// Whether `v` has unit length to within `UNIT_TOL` fixed-point steps
/// (stated on the exact squared length).
pub open spec fn approx_unit(v: Vec3) -> bool {
    (SCALE - UNIT_TOL) * (SCALE - UNIT_TOL) <= spec_norm_sq(v) <= (SCALE + UNIT_TOL) * (SCALE
        + UNIT_TOL)
}

/// Runtime test of `approx_unit`, on the exact squared length.
pub fn is_approx_unit(v: Vec3) -> (r: bool)
    ensures
        r == approx_unit(v),
{
    let nsq = norm_sq(v);
    999_980_000_100u128 <= nsq && nsq <= 1_000_020_000_100u128
}

/// `v` rescaled toward unit length: each coordinate becomes
/// `x * SCALE / |v|`, truncated toward zero and saturated.
pub open spec fn spec_normalize(v: Vec3) -> Vec3 {
    let n = fx::sqrt_floor(spec_norm_sq(v) as nat) as int;
    Vec3 {
        x: fx::sat64(fx::tdiv((v.x as int) * (SCALE as int), n)) as i64,
        y: fx::sat64(fx::tdiv((v.y as int) * (SCALE as int), n)) as i64,
        z: fx::sat64(fx::tdiv((v.z as int) * (SCALE as int), n)) as i64,
    }
}

/// One normalized coordinate: `x * SCALE / n`, truncated toward zero.
fn scale_by_inverse_norm(x: i64, n: u64) -> (r: i64)
    requires
        n >= 1,
    ensures
        r as int == fx::sat64(fx::tdiv((x as int) * (SCALE as int), n as int)),
{
    let neg: bool = x < 0;
    let mag: u128 = if neg {
        (-(x as i128)) as u128
    } else {
        x as u128
    };
    proof {
        assert((mag as int) * (SCALE as int) <= 9223372036854775808000000int) by (nonlinear_arith)
            requires
                0 <= mag as int <= 0x8000_0000_0000_0000int,
        ;
    }
    let q: u128 = (mag * (SCALE as u128)) / (n as u128);
    let r = fx::sign_sat(q, neg && q != 0);
    proof {
        lemma_scale_by_inverse_norm(x as int, n as int, q as int, r as int);
    }
    r
}

proof fn lemma_scale_by_inverse_norm(x: int, n: int, q: int, r: int)
    by (nonlinear_arith)
    requires
        n >= 1,
        q == (if x >= 0 {
            x * (SCALE as int)
        } else {
            (-x) * (SCALE as int)
        }) / n,
        r == if x < 0 && q != 0 {
            fx::sat64(-q)
        } else {
            fx::sat64(q)
        },
    ensures
        r == fx::sat64(fx::tdiv(x * (SCALE as int), n)),
{
}

/// Rescale `v` to unit length (up to truncation). The zero vector has no
/// direction and is excluded; no accuracy is claimed here beyond the exact
/// quotient, see `lemma_normalize_approx_unit`.
pub fn normalize(v: Vec3) -> (r: Vec3)
    requires
        spec_norm_sq(v) >= 1,
    ensures
        r == spec_normalize(v),
{
    let nsq = norm_sq(v);
    let n: u64 = fx::isqrt_u128(nsq);
    proof {
        if n == 0 {
            assert(((n as int) + 1) * ((n as int) + 1) == 1) by (nonlinear_arith)
                requires
                    n as int == 0,
            ;
        }
    }
    Vec3 {
        x: scale_by_inverse_norm(v.x, n),
        y: scale_by_inverse_norm(v.y, n),
        z: scale_by_inverse_norm(v.z, n),
    }
}

/// Truncated-toward-zero division of `x * SCALE` by `n` loses less than one
/// part in `n`, never saturates for `|x| <= n`, and stays within one unit.
proof fn lemma_coord_quotient(x: int, n: int)
    requires
        n >= 1,
        -n <= x <= n,
    ensures
        -1_000_000 <= fx::tdiv(x * 1_000_000, n) <= 1_000_000,
        fx::sat64(fx::tdiv(x * 1_000_000, n)) == fx::tdiv(x * 1_000_000, n),
        -n < x * 1_000_000 - fx::tdiv(x * 1_000_000, n) * n,
        x * 1_000_000 - fx::tdiv(x * 1_000_000, n) * n < n,
{
    if x >= 0 {
        let p = x * 1_000_000;
        assert(0 <= p <= n * 1_000_000) by (nonlinear_arith)
            requires
                0 <= x <= n,
                p == x * 1_000_000,
        ;
        assert(0 <= p - (p / n) * n < n && 0 <= p / n <= 1_000_000) by (nonlinear_arith)
            requires
                0 <= p <= n * 1_000_000,
                n >= 1,
        ;
    } else {
        let m = -(x * 1_000_000);
        assert(0 <= m <= n * 1_000_000) by (nonlinear_arith)
            requires
                -n <= x < 0,
                m == -(x * 1_000_000),
        ;
        assert(0 <= m - (m / n) * n < n && 0 <= m / n <= 1_000_000) by (nonlinear_arith)
            requires
                0 <= m <= n * 1_000_000,
                n >= 1,
        ;
        assert(x * 1_000_000 - (-(m / n)) * n == -(m - (m / n) * n)) by (nonlinear_arith)
            requires
                m == -(x * 1_000_000),
        ;
    }
}

/// The square expansion of one rescaled coordinate.
proof fn lemma_square_expand(rn: int, xs: int, e: int)
    by (nonlinear_arith)
    requires
        rn == xs - e,
    ensures
        rn * rn == xs * xs - 2 * (xs * e) + e * e,
{
}

/// Normalizing any vector at least half a unit long lands within `UNIT_TOL`
/// of unit length: the rescaled coordinates lose less than one fixed-point
/// step each to truncation, and the floor square root is off by less than
/// one step in the denominator.
pub proof fn lemma_normalize_approx_unit(v: Vec3)
    requires
        spec_norm_sq(v) >= 250_000_000_000,
    ensures
        approx_unit(spec_normalize(v)),
{
    let a = spec_norm_sq(v);
    let n = fx::sqrt_floor(a as nat) as int;
    fx::lemma_sqrt_floor_is_sqrt(a as nat);
    assert(n >= 500_000) by (nonlinear_arith)
        requires
            n >= 0,
            a < (n + 1) * (n + 1),
            a >= 250_000_000_000,
    ;
    let x = v.x as int;
    let y = v.y as int;
    let z = v.z as int;
    assert(-n <= x <= n && -n <= y <= n && -n <= z <= n) by (nonlinear_arith)
        requires
            a == x * x + y * y + z * z,
            a < (n + 1) * (n + 1),
            n >= 0,
    ;
    lemma_coord_quotient(x, n);
    lemma_coord_quotient(y, n);
    lemma_coord_quotient(z, n);
    let rx = fx::tdiv(x * 1_000_000, n);
    let ry = fx::tdiv(y * 1_000_000, n);
    let rz = fx::tdiv(z * 1_000_000, n);
    let ex = x * 1_000_000 - rx * n;
    let ey = y * 1_000_000 - ry * n;
    let ez = z * 1_000_000 - rz * n;
    lemma_square_expand(rx * n, x * 1_000_000, ex);
    lemma_square_expand(ry * n, y * 1_000_000, ey);
    lemma_square_expand(rz * n, z * 1_000_000, ez);
    assert((x * 1_000_000) * (x * 1_000_000) == 1_000_000_000_000int * (x * x))
        by (nonlinear_arith);
    assert((y * 1_000_000) * (y * 1_000_000) == 1_000_000_000_000int * (y * y))
        by (nonlinear_arith);
    assert((z * 1_000_000) * (z * 1_000_000) == 1_000_000_000_000int * (z * z))
        by (nonlinear_arith);
    assert((rx * n) * (rx * n) == (rx * rx) * (n * n)) by (nonlinear_arith);
    assert((ry * n) * (ry * n) == (ry * ry) * (n * n)) by (nonlinear_arith);
    assert((rz * n) * (rz * n) == (rz * rz) * (n * n)) by (nonlinear_arith);
    // Cross terms and truncation losses are tiny next to n * n.
    assert(-(n * n) <= x * ex <= n * n && 0 <= ex * ex <= n * n) by (nonlinear_arith)
        requires
            -n <= x <= n,
            -n < ex < n,
            n >= 1,
    ;
    assert(-(n * n) <= y * ey <= n * n && 0 <= ey * ey <= n * n) by (nonlinear_arith)
        requires
            -n <= y <= n,
            -n < ey < n,
            n >= 1,
    ;
    assert(-(n * n) <= z * ez <= n * n && 0 <= ez * ez <= n * n) by (nonlinear_arith)
        requires
            -n <= z <= n,
            -n < ez < n,
            n >= 1,
    ;
    assert((x * 1_000_000) * ex == 1_000_000 * (x * ex)) by (nonlinear_arith);
    assert((y * 1_000_000) * ey == 1_000_000 * (y * ey)) by (nonlinear_arith);
    assert((z * 1_000_000) * ez == 1_000_000 * (z * ez)) by (nonlinear_arith);
    let q = rx * rx + ry * ry + rz * rz;
    assert(q * (n * n) == (rx * rx) * (n * n) + (ry * ry) * (n * n) + (rz * rz) * (n * n))
        by (nonlinear_arith)
        requires
            q == rx * rx + ry * ry + rz * rz,
    ;
    assert(1_000_000_000_000int * a == 1_000_000_000_000int * (x * x) + 1_000_000_000_000int * (y
        * y) + 1_000_000_000_000int * (z * z)) by (nonlinear_arith)
        requires
            a == x * x + y * y + z * z,
    ;
    assert(q * (n * n) >= 1_000_000_000_000int * a - 6_000_000 * (n * n) && q * (n * n)
        <= 1_000_000_000_000int * a + 6_000_000 * (n * n) + 3 * (n * n)) by (nonlinear_arith)
        requires
            q * (n * n) == 1_000_000_000_000int * a - 2_000_000 * (x * ex + y * ey + z * ez) + (ex
                * ex + ey * ey + ez * ez),
            -(n * n) <= x * ex <= n * n,
            -(n * n) <= y * ey <= n * n,
            -(n * n) <= z * ez <= n * n,
            0 <= ex * ex <= n * n,
            0 <= ey * ey <= n * n,
            0 <= ez * ez <= n * n,
    ;
    assert(999_990 * 999_990 <= q && q <= 1_000_010 * 1_000_010) by (nonlinear_arith)
        requires
            q * (n * n) >= 1_000_000_000_000int * a - 6_000_000 * (n * n),
            q * (n * n) <= 1_000_000_000_000int * a + 6_000_000 * (n * n) + 3 * (n * n),
            n * n <= a,
            a < (n + 1) * (n + 1),
            n >= 500_000,
    ;
}

/// Euclidean length in fixed-point units.
pub fn norm(v: Vec3) -> (r: i64)
    ensures
        r as int == spec_norm(v),
        fx::is_sqrt_floor(spec_norm_sq(v), r as int) || r == i64::MAX,
{
    let n: u128 = norm_sq(v);
    let s: u64 = fx::isqrt_u128(n);
    proof {
        fx::lemma_sqrt_floor_is_sqrt(n as nat);
    }
    if s > i64::MAX as u64 {
        i64::MAX
    } else {
        s as i64
    }
}

} // verus!
