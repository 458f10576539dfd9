//! Signed fixed-point arithmetic: an `i128` counts units of `10^-12` of a
//! physical unit. All operations are total: where the exact result would
//! leave the representable range they return `None` instead of wrapping.

use vstd::prelude::*;
use vstd::arithmetic::div_mod::{
    lemma_div_is_ordered, lemma_div_nonincreasing, lemma_div_pos_is_pos,
};

verus! {

/// Number of fixed-point units in one physical unit (meter, radian, pascal,
/// kelvin, or a dimensionless ratio).
pub const SCALE: i128 = 1_000_000_000_000;

/// Truncating (round-toward-zero) division by a positive divisor, as the
/// machine division of two `i128` values computes it.
pub open spec fn tdiv(x: int, d: int) -> int
    recommends
        d >= 1,
{
    if x >= 0 {
        x / d
    } else {
        -((-x) / d)
    }
}

/// A truncated quotient never exceeds the dividend in magnitude.
pub proof fn lemma_tdiv_mag(x: int, d: int)
    requires
        d >= 1,
    ensures
        x >= 0 ==> 0 <= tdiv(x, d) <= x,
        x < 0 ==> x <= tdiv(x, d) <= 0,
{
    if x >= 0 {
        lemma_div_pos_is_pos(x, d);
        lemma_div_nonincreasing(x, d);
    } else {
        lemma_div_pos_is_pos(-x, d);
        lemma_div_nonincreasing(-x, d);
    }
}

/// A dividend bounded by `m` multiples of the divisor gives a quotient
/// bounded by `m`.
pub proof fn lemma_tdiv_quotient_bound(x: int, d: int, m: int)
    requires
        d >= 1,
        m >= 0,
        -(m * d) <= x <= m * d,
    ensures
        -m <= tdiv(x, d) <= m,
{
    if x >= 0 {
        lemma_div_pos_is_pos(x, d);
        lemma_div_is_ordered(x, m * d, d);
        assert((m * d) / d == m) by (nonlinear_arith)
            requires d >= 1,
        ;
    } else {
        lemma_div_pos_is_pos(-x, d);
        lemma_div_is_ordered(-x, m * d, d);
        assert((m * d) / d == m) by (nonlinear_arith)
            requires d >= 1,
        ;
    }
}

/// The exact fixed-point product of `a` and `b`, or `None` where the
/// intermediate double-width product leaves the `i128` range.
pub open spec fn fx_mul_spec(a: i128, b: i128) -> Option<i128> {
    if a * b > i128::MAX || a * b < i128::MIN {
        None
    } else {
        Some(tdiv(a * b, SCALE as int) as i128)
    }
}

/// Fixed-point multiplication, truncated toward zero.
pub fn fx_mul(a: i128, b: i128) -> (r: Option<i128>)
    ensures
        r == fx_mul_spec(a, b),
{
    match a.checked_mul(b) {
        None => None,
        Some(p) => {
            proof {
                lemma_tdiv_mag(p as int, SCALE as int);
            }
            p.checked_div(SCALE)
        },
    }
}

/// The exact fixed-point quotient of `a` by the positive `b`, or `None`
/// where the rescaled dividend leaves the `i128` range.
pub open spec fn fx_div_spec(a: i128, b: i128) -> Option<i128>
    recommends
        b >= 1,
{
    if a * SCALE > i128::MAX || a * SCALE < i128::MIN {
        None
    } else {
        Some(tdiv(a * SCALE, b as int) as i128)
    }
}

/// Fixed-point division by a positive divisor, truncated toward zero.
pub fn fx_div(a: i128, b: i128) -> (r: Option<i128>)
    requires
        b >= 1,
    ensures
        r == fx_div_spec(a, b),
{
    match a.checked_mul(SCALE) {
        None => None,
        Some(p) => {
            proof {
                lemma_tdiv_mag(p as int, b as int);
            }
            p.checked_div(b)
        },
    }
}

/// Largest value whose rescaling by `SCALE` stays representable; the domain
/// of `fx_sqrt`.
pub const FX_SQRT_MAX: i128 = 170_141_183_460_469_231_731_687_303;

/// Fixed-point square root: the greatest `r` with `r * r <= v * SCALE`,
/// so that `r` is the floor of the square root of `v` in fixed point.
pub fn fx_sqrt(v: i128) -> (r: i128)
    requires
        0 <= v <= FX_SQRT_MAX,
    ensures
        r >= 0,
        r * r <= v * SCALE,
        (r + 1) * (r + 1) > v * SCALE,
{
    let target: i128 = match v.checked_mul(SCALE) {
        Some(t) => t,
        None => 0,
    };
    let mut lo: i128 = 0;
    let mut hi: i128 = 14_000_000_000_000_000_000;
    proof {
        assert(hi * hi > target) by (nonlinear_arith)
            requires
                hi == 14_000_000_000_000_000_000i128,
                target <= i128::MAX,
        ;
    }
    while hi - lo > 1
        invariant
            0 <= lo < hi <= 14_000_000_000_000_000_000i128,
            lo * lo <= target,
            hi * hi > target,
            target == v * SCALE,
        decreases hi - lo,
    {
        let half: i128 = ((hi - lo) as u64 / 2) as i128;
        let mid: i128 = lo + half;
        proof {
            assert(lo < mid < hi);
        }
        match mid.checked_mul(mid) {
            None => {
                hi = mid;
            },
            Some(sq) => {
                if sq <= target {
                    lo = mid;
                } else {
                    hi = mid;
                }
            },
        }
    }
    proof {
        assert((lo + 1) * (lo + 1) > target);
    }
    lo
}


/// Exact truncating division of `i128` values by a positive divisor.
pub fn tdiv_exec(x: i128, d: i128) -> (r: i128)
    requires
        d >= 1,
    ensures
        r as int == tdiv(x as int, d as int),
{
    proof {
        lemma_tdiv_mag(x as int, d as int);
    }
    x.checked_div(d).unwrap()
}

} // verus!
