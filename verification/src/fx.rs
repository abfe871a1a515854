//! Saturating fixed-point scalars.
//!
//! A scalar is an `i64` holding a real quantity times `SCALE`. Addition,
//! subtraction and multiplication saturate at the `i64` extremes; the
//! quotient by `SCALE` in a product is truncated toward zero.

use vstd::prelude::*;

verus! {

/// Number of fixed-point steps in one unit.
pub const SCALE: i64 = 1_000_000;

/// Saturate a mathematical integer into the `i64` range.
pub open spec fn sat64(v: int) -> int {
    if v > i64::MAX as int {
        i64::MAX as int
    } else if v < i64::MIN as int {
        i64::MIN as int
    } else {
        v
    }
}

/// Quotient truncated toward zero; `d` must be positive to be meaningful.
pub open spec fn tdiv(p: int, d: int) -> int {
    if p >= 0 {
        p / d
    } else {
        -((-p) / d)
    }
}

/// Saturating fixed-point sum.
pub open spec fn spec_add(a: int, b: int) -> int {
    sat64(a + b)
}

/// Saturating fixed-point difference.
pub open spec fn spec_sub(a: int, b: int) -> int {
    sat64(a - b)
}

/// Saturating fixed-point product: the wide product is rescaled by `SCALE`
/// with truncation toward zero, then saturated.
pub open spec fn spec_mul(a: int, b: int) -> int {
    sat64(tdiv(a * b, SCALE as int))
}

/// Saturating fixed-point quotient (undefined for `b == 0`).
pub open spec fn spec_div(a: int, b: int) -> int {
    if b >= 0 {
        sat64(tdiv(a * (SCALE as int), b))
    } else {
        sat64(tdiv(-(a * (SCALE as int)), -b))
    }
}

proof fn lemma_i64_product_fits(a: int, b: int)
    by (nonlinear_arith)
    requires
        i64::MIN as int <= a <= i64::MAX as int,
        i64::MIN as int <= b <= i64::MAX as int,
    ensures
        -0x4000_0000_0000_0000_0000_0000_0000_0000int <= a * b,
        a * b <= 0x4000_0000_0000_0000_0000_0000_0000_0000int,
{
}

pub fn fx_add(a: i64, b: i64) -> (r: i64)
    ensures
        r as int == spec_add(a as int, b as int),
{
    let s: i128 = a as i128 + b as i128;
    if s > i64::MAX as i128 {
        i64::MAX
    } else if s < i64::MIN as i128 {
        i64::MIN
    } else {
        s as i64
    }
}

pub fn fx_sub(a: i64, b: i64) -> (r: i64)
    ensures
        r as int == spec_sub(a as int, b as int),
{
    let s: i128 = a as i128 - b as i128;
    if s > i64::MAX as i128 {
        i64::MAX
    } else if s < i64::MIN as i128 {
        i64::MIN
    } else {
        s as i64
    }
}

/// Turn a non-negative wide quotient with its sign back into a saturated `i64`.
pub(crate) fn sign_sat(q: u128, neg: bool) -> (r: i64)
    ensures
        r as int == if neg {
            sat64(-(q as int))
        } else {
            sat64(q as int)
        },
{
    if neg {
        if q >= 9223372036854775808u128 {
            i64::MIN
        } else {
            -(q as i64)
        }
    } else {
        if q > i64::MAX as u128 {
            i64::MAX
        } else {
            q as i64
        }
    }
}

pub fn fx_mul(a: i64, b: i64) -> (r: i64)
    ensures
        r as int == spec_mul(a as int, b as int),
{
    proof {
        lemma_i64_product_fits(a as int, b as int);
    }
    let p: i128 = (a as i128) * (b as i128);
    let neg: bool = p < 0;
    let m: u128 = if neg {
        (-p) as u128
    } else {
        p as u128
    };
    let q: u128 = m / (SCALE as u128);
    sign_sat(q, neg)
}

pub fn fx_div(a: i64, b: i64) -> (r: i64)
    requires
        b != 0,
    ensures
        r as int == spec_div(a as int, b as int),
{
    proof {
        assert(-9223372036854775808000000int <= (a as int) * (SCALE as int)
            <= 9223372036854775808000000int) by (nonlinear_arith)
            requires
                i64::MIN as int <= a as int <= i64::MAX as int,
        ;
    }
    let p: i128 = (a as i128) * (SCALE as i128);
    let neg: bool = (p < 0) != (b < 0);
    let m: u128 = if p < 0 {
        (-p) as u128
    } else {
        p as u128
    };
    let d: u128 = if b < 0 {
        (-(b as i128)) as u128
    } else {
        b as u128
    };
    let q: u128 = m / d;
    let r = sign_sat(q, neg && q != 0);
    proof {
        lemma_fx_div_cases(a as int, b as int, p as int, q as int, r as int);
    }
    r
}

/// Whether `r` is the floor of the square root of `n`.
pub open spec fn is_sqrt_floor(n: int, r: int) -> bool {
    0 <= r && r * r <= n && n < (r + 1) * (r + 1)
}

/// The floor of the square root, defined by counting up.
pub open spec fn sqrt_floor(n: nat) -> nat
    decreases n,
{
    if n == 0 {
        0
    } else {
        let p = sqrt_floor((n - 1) as nat);
        if (p + 1) * (p + 1) <= n {
            p + 1
        } else {
            p
        }
    }
}

pub proof fn lemma_sqrt_floor_is_sqrt(n: nat)
    ensures
        is_sqrt_floor(n as int, sqrt_floor(n) as int),
    decreases n,
{
    if n > 0 {
        lemma_sqrt_floor_is_sqrt((n - 1) as nat);
        let p = sqrt_floor((n - 1) as nat) as int;
        assert((p + 1) * (p + 1) < (p + 2) * (p + 2)) by (nonlinear_arith)
            requires
                p >= 0,
        ;
    }
}

pub proof fn lemma_sqrt_floor_unique(n: int, r: int)
    by (nonlinear_arith)
    requires
        n >= 0,
        is_sqrt_floor(n, r),
        is_sqrt_floor(n, sqrt_floor(n as nat) as int),
    ensures
        r == sqrt_floor(n as nat) as int,
{
}

/// Floor of the square root of a 128-bit value, by bisection.
pub fn isqrt_u128(n: u128) -> (r: u64)
    ensures
        r as nat == sqrt_floor(n as nat),
        is_sqrt_floor(n as int, r as int),
{
    let mut lo: u64 = 0;
    let mut hi: u64 = u64::MAX - 1;
    if n >= 0xffff_ffff_ffff_fffe_0000_0000_0000_0001u128 {
        // n is at least u64::MAX squared, whose root saturates the result.
        proof {
            assert((0xffff_ffff_ffff_ffffint) * (0xffff_ffff_ffff_ffffint)
                == 0xffff_ffff_ffff_fffe_0000_0000_0000_0001int) by (nonlinear_arith);
            assert((0xffff_ffff_ffff_ffffint + 1) * (0xffff_ffff_ffff_ffffint + 1)
                == 0x1_0000_0000_0000_0000_0000_0000_0000_0000int) by (nonlinear_arith);
            lemma_sqrt_floor_is_sqrt(n as nat);
            lemma_sqrt_floor_unique(n as int, u64::MAX as int);
        }
        return u64::MAX;
    }
    proof {
        assert((0xffff_ffff_ffff_fffeint + 1) * (0xffff_ffff_ffff_fffeint + 1)
            == 0xffff_ffff_ffff_fffe_0000_0000_0000_0001int) by (nonlinear_arith);
    }
    while lo < hi
        invariant
            (lo as int) * (lo as int) <= n as int,
            (n as int) < ((hi as int) + 1) * ((hi as int) + 1),
            lo <= hi,
            hi <= 0xffff_ffff_ffff_fffeu64,
        decreases hi - lo,
    {
        let mid: u64 = lo + (hi - lo + 1) / 2;
        proof {
            assert((mid as int) * (mid as int) <= 0xffff_ffff_ffff_fffe_0000_0000_0000_0001int)
                by (nonlinear_arith)
                requires
                    0 <= mid as int <= 0xffff_ffff_ffff_ffffint,
            ;
        }
        let sq: u128 = (mid as u128) * (mid as u128);
        if sq <= n {
            lo = mid;
        } else {
            hi = mid - 1;
        }
    }
    proof {
        lemma_sqrt_floor_is_sqrt(n as nat);
        lemma_sqrt_floor_unique(n as int, lo as int);
    }
    lo
}

proof fn lemma_fx_div_cases(a: int, b: int, p: int, q: int, r: int)
    by (nonlinear_arith)
    requires
        b != 0,
        p == a * (SCALE as int),
        q == if p >= 0 {
            p / (if b >= 0 { b } else { -b })
        } else {
            (-p) / (if b >= 0 { b } else { -b })
        },
        r == if ((p < 0) != (b < 0)) && q != 0 {
            sat64(-q)
        } else {
            sat64(q)
        },
    ensures
        r == spec_div(a, b),
{
}

} // verus!
