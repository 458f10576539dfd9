//! Laws of the ray model in a uniform medium: where the refractive index
//! does not change with altitude, its gradient vanishes, the flat-planet
//! curvature is exactly zero, and the spherical-planet curvature reduces to
//! the pure geometric terms — the ray is a straight line in both cases.

use vstd::prelude::*;
use crate::integrator::{lemma_tdiv_cancel, rk4_spec, step_ok, trajectory_ok, EarthShape, SIX_FX};
use crate::path::{cast_table, h_at_dist_spec, interp_h_from, is_cast, quad_interp, vacuum_table, Environment, Path};
use crate::ray_state::{rsd_add_spec, rsd_div_spec, shift_spec};
use crate::atmosphere::{
    dn_spec, lemma_uniform_interp, n_minus_1_spec, n_spec, pressure_spec, table_uniform, table_wf,
    temperature_spec, AtmoLayer, EPS_FD, H_QUERY_LIM, K_REFR, N1_LIM, P_LIM, T_MIN,
};
use crate::fx::{fx_div_spec, fx_mul_spec, lemma_tdiv_mag, lemma_tdiv_quotient_bound, tdiv, SCALE};
use crate::ray_state::{
    deriv_flat_spec, deriv_spherical_spec, in_i128, term_chain_spec, RayState, RayStateDerivative,
};

verus! {

/// In a uniform table, pressure and temperature are the first layer's
/// values at every altitude.
pub proof fn lemma_uniform_model(s: Seq<AtmoLayer>, h: i128)
    requires
        table_wf(s),
        table_uniform(s),
    ensures
        pressure_spec(s, h) == s[0].p as int,
        temperature_spec(s, h) == s[0].t as int,
{
    lemma_uniform_interp(s, 0, h);
}

/// In a uniform medium the finite-difference refractivity gradient is
/// exactly zero.
pub proof fn lemma_uniform_dn_zero(s: Seq<AtmoLayer>, h: i128)
    requires
        table_wf(s),
        table_uniform(s),
        -H_QUERY_LIM <= h <= H_QUERY_LIM,
    ensures
        dn_spec(s, h) == 0,
{
    lemma_uniform_model(s, (h + EPS_FD) as i128);
    lemma_uniform_model(s, (h - EPS_FD) as i128);
    assert(n_minus_1_spec(s, (h + EPS_FD) as i128) == n_minus_1_spec(s, (h - EPS_FD) as i128));
}

/// The refractivity a well-formed table gives is nonnegative and bounded,
/// so the refractive index is at least one and fits the fixed-point range.
pub proof fn lemma_n_spec_bounds(s: Seq<AtmoLayer>, h: i128)
    requires
        table_wf(s),
        pressure_spec(s, h) == s[0].p as int,
        temperature_spec(s, h) == s[0].t as int,
    ensures
        0 <= n_minus_1_spec(s, h) <= N1_LIM,
        SCALE <= n_spec(s, h) <= SCALE + N1_LIM,
{
    let p = s[0].p as int;
    let t = s[0].t as int;
    assert(layer_bounds_hold(s));
    assert(0 <= K_REFR * p <= 786_000_000_000 * SCALE) by (nonlinear_arith)
        requires
            0 <= p <= P_LIM,
            K_REFR == 786_000i128,
            P_LIM == 1_000_000_000_000_000_000i128,
            SCALE == 1_000_000_000_000i128,
    ;
    lemma_tdiv_mag(K_REFR * p, SCALE as int);
    lemma_tdiv_quotient_bound(K_REFR * p, SCALE as int, 786_000_000_000);
    let kp = tdiv(K_REFR * p, SCALE as int);
    assert(0 <= kp * SCALE <= N1_LIM * t) by (nonlinear_arith)
        requires
            0 <= kp <= 786_000_000_000,
            t >= T_MIN,
            T_MIN == 1_000_000_000i128,
            SCALE == 1_000_000_000_000i128,
            N1_LIM == 1_000_000_000_000_000i128,
    ;
    lemma_tdiv_mag(kp * SCALE, t);
    lemma_tdiv_quotient_bound(kp * SCALE, t, N1_LIM as int);
}

/// The first layer of a well-formed table is in range.
spec fn layer_bounds_hold(s: Seq<AtmoLayer>) -> bool {
    crate::atmosphere::layer_ok(s[0])
}

/// In a uniform medium the flat-planet curvature vanishes: the derivative
/// is exactly `(1, dr, 0)` and a free ray-cast reduces to a straight line.
pub proof fn lemma_flat_uniform_zero_curvature(s: Seq<AtmoLayer>, st: RayState)
    requires
        table_wf(s),
        table_uniform(s),
        -H_QUERY_LIM <= st.h <= H_QUERY_LIM,
        -10_000_000_000_000_000_000 <= st.dr <= 10_000_000_000_000_000_000,
    ensures
        deriv_flat_spec(s, st) == Some(RayStateDerivative { dx: SCALE, dr: st.dr, d2r: 0 }),
{
    lemma_uniform_dn_zero(s, st.h);
    lemma_uniform_model(s, st.h);
    lemma_n_spec_bounds(s, st.h);
    let nr = n_spec(s, st.h) as i128;
    assert(fx_div_spec(0i128, nr) == Some(0i128)) by {
        lemma_tdiv_mag(0, nr as int);
    }
    assert(0 <= st.dr * st.dr <= 100_000_000_000_000_000_000_000_000_000_000_000_000) by (nonlinear_arith)
        requires
            -10_000_000_000_000_000_000 <= st.dr <= 10_000_000_000_000_000_000,
    ;
    lemma_tdiv_mag(st.dr as int * st.dr as int, SCALE as int);
    let dr2 = tdiv(st.dr as int * st.dr as int, SCALE as int) as i128;
    assert(fx_mul_spec(0i128, (dr2 + SCALE) as i128) == Some(0i128)) by {
        lemma_tdiv_mag(0, SCALE as int);
    }
}

/// The pure geometric spherical curvature: the uniform-medium form of the
/// spherical derivative, `d2r = 2 * dr^2 / r + r`, a straight chord in
/// polar coordinates.
pub open spec fn geom_deriv_spec(radius: i128, st: RayState) -> Option<RayStateDerivative> {
    if st.h < -H_QUERY_LIM || st.h > H_QUERY_LIM || !in_i128(st.h + radius) || st.h + radius < 1 {
        None
    } else {
        let r_loc = (st.h + radius) as i128;
        match fx_div_spec(st.dr, r_loc) {
            None => None,
            Some(c1) => match fx_mul_spec(c1, st.dr) {
                None => None,
                Some(c2) => if !in_i128(2 * c2) {
                    None
                } else {
                    let c = (2 * c2) as i128;
                    if in_i128(c + r_loc) {
                        Some(RayStateDerivative { dx: SCALE, dr: st.dr, d2r: (c + r_loc) as i128 })
                    } else {
                        None
                    }
                },
            },
        }
    }
}

/// In a uniform medium the spherical-planet curvature reduces to the pure
/// geometric terms: the refractive terms vanish and the ray follows a
/// straight chord expressed in the sphere's radial coordinate.
pub proof fn lemma_spherical_uniform_geometric(s: Seq<AtmoLayer>, radius: i128, st: RayState)
    requires
        table_wf(s),
        table_uniform(s),
    ensures
        deriv_spherical_spec(s, radius, st) == geom_deriv_spec(radius, st),
{
    if st.h < -H_QUERY_LIM || st.h > H_QUERY_LIM || !in_i128(st.h + radius) || st.h + radius < 1 {
    } else {
        let r_loc = (st.h + radius) as i128;
        lemma_uniform_dn_zero(s, st.h);
        lemma_uniform_model(s, st.h);
        lemma_n_spec_bounds(s, st.h);
        let nr = n_spec(s, st.h) as i128;
        assert(fx_div_spec(0i128, nr) == Some(0i128)) by {
            lemma_tdiv_mag(0, nr as int);
        }
        assert(fx_mul_spec(st.dr, 0i128) == Some(0i128)) by {
            lemma_tdiv_mag(0, SCALE as int);
        }
        assert(fx_mul_spec(r_loc, 0i128) == Some(0i128)) by {
            lemma_tdiv_mag(0, SCALE as int);
        }
        match fx_div_spec(st.dr, r_loc) {
            None => {
                assert(term_chain_spec(st.dr, r_loc, 0) is None);
            },
            Some(c1) => {
                match fx_mul_spec(c1, st.dr) {
                    None => {},
                    Some(c2) => {},
                }
            },
        }
    }
}

/// One Runge-Kutta step of a level ray (zero slope) through a flat uniform
/// medium always completes, advances the parameter by two quanta, and
/// leaves altitude and slope exactly unchanged: every stage's curvature is
/// zero, so nothing moves but the parameter.
pub proof fn lemma_rk4_level(s: Seq<AtmoLayer>, st: RayState, q: i128)
    requires
        table_wf(s),
        table_uniform(s),
        st.dr == 0,
        -H_QUERY_LIM <= st.h <= H_QUERY_LIM,
        1 <= q <= 50_000_000_000_000_000,
        0 <= st.x <= 20_000_000_000_000_000_000,
    ensures
        rk4_spec(EarthShape::Flat, s, st, q) == Some(
            RayState { x: (st.x + 2 * q) as i128, h: st.h, dr: 0 },
        ),
{
    reveal(rk4_spec);
    lemma_flat_uniform_zero_curvature(s, st);
    let k1 = RayStateDerivative { dx: SCALE, dr: 0, d2r: 0 };
    assert(fx_mul_spec(0i128, q) == Some(0i128)) by {
        lemma_tdiv_mag(0, SCALE as int);
    }
    assert(fx_mul_spec(0i128, (2 * q) as i128) == Some(0i128)) by {
        lemma_tdiv_mag(0, SCALE as int);
    }
    assert(fx_mul_spec(SCALE, q) == Some(q)) by {
        lemma_tdiv_cancel(q as int, SCALE as int);
        assert(SCALE * q == q * SCALE) by (nonlinear_arith);
    }
    assert(fx_mul_spec(SCALE, (2 * q) as i128) == Some((2 * q) as i128)) by {
        let q2: int = 2 * q;
        assert((2 * q) as i128 == q2);
        lemma_tdiv_cancel(q2, SCALE as int);
        assert(SCALE * q2 == q2 * SCALE) by (nonlinear_arith);
    }
    let s1 = RayState { x: (st.x + q) as i128, h: st.h, dr: 0 };
    assert(shift_spec(st, k1, q) == Some(s1));
    lemma_flat_uniform_zero_curvature(s, s1);
    let s3 = RayState { x: (st.x + 2 * q) as i128, h: st.h, dr: 0 };
    assert(shift_spec(st, k1, (2 * q) as i128) == Some(s3));
    lemma_flat_uniform_zero_curvature(s, s3);
    let t1 = RayStateDerivative { dx: (2 * SCALE) as i128, dr: 0, d2r: 0 };
    assert(rsd_add_spec(k1, k1) == Some(t1));
    let t2 = RayStateDerivative { dx: (4 * SCALE) as i128, dr: 0, d2r: 0 };
    assert(rsd_add_spec(t1, t1) == Some(t2));
    let ksum = RayStateDerivative { dx: (6 * SCALE) as i128, dr: 0, d2r: 0 };
    assert(rsd_add_spec(t2, t1) == Some(ksum));
    assert(fx_div_spec(0i128, SIX_FX) == Some(0i128)) by {
        lemma_tdiv_mag(0, SIX_FX as int);
    }
    assert(fx_div_spec((6 * SCALE) as i128, SIX_FX) == Some(SCALE)) by {
        lemma_tdiv_cancel(SCALE as int, SIX_FX as int);
        assert(((6 * SCALE) as i128) * SCALE == SCALE * SIX_FX) by (nonlinear_arith)
            requires
                SCALE == 1_000_000_000_000i128,
                SIX_FX == 6_000_000_000_000i128,
        ;
    }
    let avg = RayStateDerivative { dx: SCALE, dr: 0, d2r: 0 };
    assert(rsd_div_spec(ksum, SIX_FX) == Some(avg));
    assert(shift_spec(st, avg, (2 * q) as i128) == Some(s3));
}

/// Every sample of a level ray's trajectory through a flat uniform medium
/// carries the starting altitude and zero slope.
#[verifier::rlimit(100)]
pub proof fn lemma_level_trajectory(s: Seq<AtmoLayer>, init: RayState, ss: Seq<RayState>, i: int)
    requires
        table_wf(s),
        table_uniform(s),
        trajectory_ok(EarthShape::Flat, s, init, ss),
        init.dr == 0,
        -H_QUERY_LIM <= init.h <= H_QUERY_LIM,
        0 <= i < ss.len(),
    ensures
        ss[i].h == init.h,
        ss[i].dr == 0,
    decreases i,
{
    if i > 0 {
        lemma_level_trajectory(s, init, ss, i - 1);
        assert(step_ok(EarthShape::Flat, s, ss[i - 1], ss[i]));
        reveal(step_ok);
        let d = ss[i].x - ss[i - 1].x;
        let q = (d / 4) as i128;
        lemma_rk4_level(s, ss[i - 1], q);
        let mid = rk4_spec(EarthShape::Flat, s, ss[i - 1], q)->0;
        lemma_rk4_level(s, mid, q);
    }
}

/// Querying a trajectory whose samples all carry altitude `h0` and zero
/// slope gives exactly `h0` at every parameter: the interpolation's linear
/// and quadratic terms vanish.
pub proof fn lemma_level_query(ss: Seq<RayState>, h0: i128, p: i128, i: int)
    requires
        ss.len() >= 1,
        forall|j: int| 0 <= j < ss.len() ==> (#[trigger] ss[j]).h == h0 && ss[j].dr == 0,
        0 <= i < ss.len(),
    ensures
        interp_h_from(ss, i, p) == h0 as int,
    decreases ss.len() - i,
{
    if i < ss.len() - 1 {
        if p <= ss[i + 1].x {
            let x0 = ss[i].x as int;
            let x1 = ss[i + 1].x as int;
            let w = p as int - x0;
            let span = x1 - x0;
            assert(0i128 as int * w == 0) by (nonlinear_arith);
            assert(0i128 as int * span == 0) by (nonlinear_arith);
            let t = tdiv(w * SCALE, span);
            let t2 = tdiv(t * t, SCALE as int);
            assert(0 * t2 == 0) by (nonlinear_arith);
            assert(quad_interp(x0, h0 as int, 0, x1, h0 as int, p as int) == h0 as int);
        } else {
            lemma_level_query(ss, h0, p, i + 1);
        }
    }
}

/// The level-ray law: a ray cast with zero launch slope through a flat,
/// altitude-independent medium reads back its starting altitude exactly,
/// at every ground distance.
pub proof fn lemma_flat_uniform_level_ray(
    s: Seq<AtmoLayer>,
    init: RayState,
    ss: Seq<RayState>,
    dist: i128,
)
    requires
        table_wf(s),
        table_uniform(s),
        trajectory_ok(EarthShape::Flat, s, init, ss),
        init.dr == 0,
        -H_QUERY_LIM <= init.h <= H_QUERY_LIM,
    ensures
        h_at_dist_spec(EarthShape::Flat, ss, dist) == init.h as int,
{
    assert forall|j: int| 0 <= j < ss.len() implies (#[trigger] ss[j]).h == init.h && ss[j].dr
        == 0 by {
        lemma_level_trajectory(s, init, ss, j);
    }
    let p = dist;
    if !(p <= ss[0].x) {
        lemma_level_query(ss, init.h, p, 0);
    }
}

/// The vacuum table is well formed and altitude-independent.
pub proof fn lemma_vacuum_table_uniform()
    ensures
        table_wf(vacuum_table()),
        table_uniform(vacuum_table()),
{
    let s = vacuum_table();
    assert(s.len() == 1);
    assert(s[0] == (AtmoLayer { h: 0, p: 0, t: 288_000_000_000_000i128 }));
    assert(crate::atmosphere::layer_ok(s[0]));
}

/// The level-ray law at the caster's interface: a path that is the cast of
/// a zero-tangent ray over a flat planet, through a straight-line (vacuum)
/// or altitude-independent medium, reads back its starting altitude
/// exactly at every ground distance.
pub proof fn lemma_level_cast_reads_start(
    env: Environment,
    start_h: i128,
    straight: bool,
    p: Path,
    dist: i128,
)
    requires
        is_cast(env, start_h, 0, straight, p),
        env.shape == EarthShape::Flat,
        straight || (table_wf(env.atmosphere@) && table_uniform(env.atmosphere@)),
        -H_QUERY_LIM <= start_h <= H_QUERY_LIM,
    ensures
        h_at_dist_spec(EarthShape::Flat, p.samples@, dist) == start_h as int,
{
    let table = cast_table(env.atmosphere@, straight);
    if straight {
        lemma_vacuum_table_uniform();
    }
    let init = RayState { x: 0, h: start_h, dr: 0 };
    assert(crate::path::init_state_spec(env.shape, start_h, 0) == Some(init));
    lemma_flat_uniform_level_ray(table, init, p.samples@, dist);
}

/// One Runge-Kutta step through a flat uniform medium keeps the ray's
/// slope exactly and advances the altitude by exactly the slope times the
/// parameter advance, truncated: with zero curvature every stage carries
/// the same slope, so the weighted average is that slope.
pub proof fn lemma_rk4_slope_kept(s: Seq<AtmoLayer>, st: RayState, q: i128)
    requires
        table_wf(s),
        table_uniform(s),
        -10_000_000_000_000_000_000 <= st.dr <= 10_000_000_000_000_000_000,
        q >= 1,
        rk4_spec(EarthShape::Flat, s, st, q) is Some,
    ensures
        (rk4_spec(EarthShape::Flat, s, st, q)->0).dr == st.dr,
        (rk4_spec(EarthShape::Flat, s, st, q)->0).h == st.h + tdiv(
            st.dr * (2 * q),
            SCALE as int,
        ),
{
    reveal(rk4_spec);
    let shape = EarthShape::Flat;
    assert(-H_QUERY_LIM <= st.h <= H_QUERY_LIM) by {
        assert(deriv_flat_spec(s, st) is Some);
    }
    lemma_flat_uniform_zero_curvature(s, st);
    let k1 = RayStateDerivative { dx: SCALE, dr: st.dr, d2r: 0 };
    assert(fx_mul_spec(0i128, q) == Some(0i128)) by {
        lemma_tdiv_mag(0, SCALE as int);
    }
    assert(fx_mul_spec(0i128, (2 * q) as i128) == Some(0i128)) by {
        lemma_tdiv_mag(0, SCALE as int);
    }
    let s1 = shift_spec(st, k1, q)->0;
    assert(s1.dr == st.dr);
    assert(-H_QUERY_LIM <= s1.h <= H_QUERY_LIM) by {
        assert(deriv_flat_spec(s, s1) is Some);
    }
    lemma_flat_uniform_zero_curvature(s, s1);
    let s2 = shift_spec(st, k1, q)->0;
    lemma_flat_uniform_zero_curvature(s, s2);
    let s3 = shift_spec(st, k1, (2 * q) as i128)->0;
    assert(s3.dr == st.dr);
    assert(-H_QUERY_LIM <= s3.h <= H_QUERY_LIM) by {
        assert(deriv_flat_spec(s, s3) is Some);
    }
    lemma_flat_uniform_zero_curvature(s, s3);
    let t1 = rsd_add_spec(k1, k1)->0;
    let t2 = rsd_add_spec(t1, t1)->0;
    let ksum = rsd_add_spec(t2, t1)->0;
    assert(ksum.dx == 6 * SCALE && ksum.dr == 6 * st.dr && ksum.d2r == 0);
    assert(fx_div_spec(0i128, SIX_FX) == Some(0i128)) by {
        lemma_tdiv_mag(0, SIX_FX as int);
    }
    let avg = rsd_div_spec(ksum, SIX_FX)->0;
    assert(avg.dr == st.dr) by {
        assert(fx_div_spec(ksum.dr, SIX_FX) is Some);
        lemma_tdiv_cancel(st.dr as int, SIX_FX as int);
        assert(ksum.dr * SCALE == st.dr * SIX_FX) by (nonlinear_arith)
            requires
                ksum.dr == 6 * st.dr,
                SCALE == 1_000_000_000_000i128,
                SIX_FX == 6_000_000_000_000i128,
        ;
    }
    assert(avg.d2r == 0);
    assert(shift_spec(st, avg, (2 * q) as i128) is Some);
    assert(fx_mul_spec(st.dr, (2 * q) as i128) is Some);
    assert((rk4_spec(shape, s, st, q)->0).h == st.h + tdiv(st.dr * (2 * q), SCALE as int)) by {
        assert(st.dr as int * ((2 * q) as i128) as int == st.dr * (2 * q));
    }
}

/// The straight-line law of a free flat cast through a uniform medium, at
/// any launch slope: every sample keeps the launch slope exactly, and each
/// accepted step raises the altitude by exactly the slope times half the
/// parameter advance, twice (once per Runge-Kutta half step), truncated
/// toward zero — the trajectory is a straight line up to one fixed-point
/// unit of rounding per half step.
pub proof fn lemma_flat_uniform_straight_trajectory(
    s: Seq<AtmoLayer>,
    init: RayState,
    ss: Seq<RayState>,
    i: int,
)
    requires
        table_wf(s),
        table_uniform(s),
        trajectory_ok(EarthShape::Flat, s, init, ss),
        -10_000_000_000_000_000_000 <= init.dr <= 10_000_000_000_000_000_000,
        0 <= i < ss.len(),
    ensures
        ss[i].dr == init.dr,
        i > 0 ==> ss[i].h == ss[i - 1].h + 2 * tdiv(
            init.dr * ((ss[i].x - ss[i - 1].x) / 2),
            SCALE as int,
        ),
    decreases i,
{
    if i > 0 {
        lemma_flat_uniform_straight_trajectory(s, init, ss, i - 1);
        assert(step_ok(EarthShape::Flat, s, ss[i - 1], ss[i]));
        reveal(step_ok);
        let d = ss[i].x - ss[i - 1].x;
        let q = (d / 4) as i128;
        lemma_rk4_slope_kept(s, ss[i - 1], q);
        let mid = rk4_spec(EarthShape::Flat, s, ss[i - 1], q)->0;
        lemma_rk4_slope_kept(s, mid, q);
        assert(d == 4 * q && 2 * q == d / 2);
    }
}

} // verus!
