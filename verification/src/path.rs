//! Queryable ray trajectories. A `Path` holds the accepted integrator
//! samples for one ray and answers altitude queries at any ground distance
//! by quadratic interpolation between samples (slope queries by linear
//! interpolation). Three producers share
//! the interface: a straight-line cast (integration through a vacuum, so
//! the ray is unrefracted), a free ray cast at a fixed launch slope, and a
//! target-seeking cast that finds the launch slope by a shooting search.
//! A bisection root finder inverts a path, giving the distance at which it
//! crosses a given altitude.

use vstd::prelude::*;
use crate::atmosphere::{table_uniform, table_wf, Atmosphere, AtmoLayer};
use crate::fx::{fx_div, fx_div_spec, fx_mul, fx_mul_spec, lemma_tdiv_mag, lemma_tdiv_quotient_bound, tdiv, tdiv_exec, SCALE};
use crate::integrator::{
    integrate, state_ok, step_ok, trajectory_ok, EarthShape, PathError, GAP_LIM, HGT_LIM,
    SLOPE_LIM,
};
use crate::ray_state::{in_i128, RayState};

verus! {

/// Greatest ground distance (fixed-point meters) a query or a search may
/// mention: five thousand kilometers.
pub const MAX_DIST: i128 = 5_000_000_000_000_000_000;

/// Tolerance of the bisection searches over distance: `1e-5` meters.
pub const DIST_TOL: i128 = 10_000_000;

/// Bracket half-width of the shooting search over the launch slope: a
/// tangent of two (about 63 degrees above horizontal).
pub const TAN_LIM: i128 = 2_000_000_000_000;

/// Tolerance of the shooting search's bracket over the launch tangent.
pub const TAN_TOL: i128 = 100;

/// Least and greatest spherical radius the model accepts: one meter to one
/// hundred thousand kilometers, in fixed point.
pub const RADIUS_MIN: i128 = 1_000_000_000_000;

/// Greatest spherical radius the model accepts.
pub const RADIUS_MAX: i128 = 100_000_000_000_000_000_000;

/// Greatest starting altitude magnitude a cast accepts.
pub const START_H_LIM: i128 = 100_000_000_000_000_000;

/// The shape's parameters lie in the accepted ranges.
pub open spec fn shape_ok(shape: EarthShape) -> bool {
    match shape {
        EarthShape::Flat => true,
        EarthShape::Spherical { radius } => RADIUS_MIN <= radius <= RADIUS_MAX,
    }
}

/// The planet and its atmosphere: everything a ray cast reads.
pub struct Environment {
    pub shape: EarthShape,
    pub atmosphere: Atmosphere,
}

/// A valid environment: accepted shape and well-formed atmosphere table.
pub open spec fn env_wf(env: Environment) -> bool {
    &&& shape_ok(env.shape)
    &&& table_wf(env.atmosphere@)
}

/// The integration parameter standing for ground distance `d`: the distance
/// itself for a flat planet, the polar angle `d / radius` for a spherical
/// one.
pub open spec fn param_of_dist(shape: EarthShape, d: i128) -> int
    recommends
        shape_ok(shape),
        0 <= d <= MAX_DIST,
{
    match shape {
        EarthShape::Flat => d as int,
        EarthShape::Spherical { radius } => tdiv(d * SCALE, radius as int),
    }
}

/// Executable parameter conversion.
fn dist_to_param(shape: &EarthShape, d: i128) -> (r: i128)
    requires
        shape_ok(*shape),
        0 <= d <= MAX_DIST,
    ensures
        r as int == param_of_dist(*shape, d),
        0 <= r <= MAX_DIST,
{
    match shape {
        EarthShape::Flat => d,
        EarthShape::Spherical { radius } => {
            proof {
                assert(0 <= d * SCALE <= i128::MAX && d * SCALE <= MAX_DIST * (*radius))
                    by (nonlinear_arith)
                    requires
                        0 <= d <= MAX_DIST,
                        *radius >= SCALE,
                        SCALE == 1_000_000_000_000i128,
                        MAX_DIST == 5_000_000_000_000_000_000i128,
                ;
                lemma_tdiv_quotient_bound(d as int * SCALE as int, *radius as int, MAX_DIST as int);
                lemma_tdiv_mag(d as int * SCALE as int, *radius as int);
            }
            match fx_div(d, *radius) {
                Some(v) => v,
                None => 0,
            }
        },
    }
}

/// Greatest magnitude an interpolated altitude can reach.
pub const H_QUERY_BOUND: i128 = 10_000_000_000_000_000_000_000_000;

/// Quadratic interpolation of the altitude between two samples, using the
/// earlier sample's slope: exact at both ends, with the curvature between
/// them carried by the quadratic term.
pub open spec fn quad_interp(x0: int, h0: int, dr0: int, x1: int, h1: int, p: int) -> int
    recommends
        x0 < p <= x1,
{
    let span = x1 - x0;
    let w = p - x0;
    let lin = tdiv(dr0 * w, SCALE as int);
    let drspan = tdiv(dr0 * span, SCALE as int);
    let coef = (h1 - h0) - drspan;
    let t = tdiv(w * SCALE, span);
    let t2 = tdiv(t * t, SCALE as int);
    let corr = tdiv(coef * t2, SCALE as int);
    h0 + lin + corr
}

/// Executable quadratic interpolation between two in-range samples.
fn quad_wide(x0: i128, h0: i128, dr0: i128, x1: i128, h1: i128, p: i128) -> (r: i128)
    requires
        x0 < p <= x1,
        x1 - x0 <= GAP_LIM,
        -HGT_LIM <= h0 <= HGT_LIM,
        -HGT_LIM <= h1 <= HGT_LIM,
        -SLOPE_LIM <= dr0 <= SLOPE_LIM,
    ensures
        r as int == quad_interp(x0 as int, h0 as int, dr0 as int, x1 as int, h1 as int, p as int),
        -H_QUERY_BOUND <= r <= H_QUERY_BOUND,
{
    let span: i128 = x1 - x0;
    let w: i128 = p - x0;
    proof {
        assert(-(2_000_000_000_000_000_000_000_000i128 * SCALE) <= dr0 * w <= 2_000_000_000_000_000_000_000_000i128
            * SCALE && -(2_000_000_000_000_000_000_000_000i128 * SCALE) <= dr0 * span
            <= 2_000_000_000_000_000_000_000_000i128 * SCALE) by (nonlinear_arith)
            requires
                -SLOPE_LIM <= dr0 <= SLOPE_LIM,
                0 <= w <= span <= GAP_LIM,
                SLOPE_LIM == 20_000_000_000_000_000_000i128,
                GAP_LIM == 100_000_000_000_000_000i128,
                SCALE == 1_000_000_000_000i128,
        ;
        crate::fx::lemma_tdiv_quotient_bound(
            dr0 as int * w as int,
            SCALE as int,
            2_000_000_000_000_000_000_000_000,
        );
        crate::fx::lemma_tdiv_quotient_bound(
            dr0 as int * span as int,
            SCALE as int,
            2_000_000_000_000_000_000_000_000,
        );
    }
    let lin: i128 = tdiv_exec(dr0 * w, SCALE);
    let drspan: i128 = tdiv_exec(dr0 * span, SCALE);
    let coef: i128 = (h1 - h0) - drspan;
    proof {
        assert(0 <= w * SCALE <= SCALE * span) by (nonlinear_arith)
            requires
                0 <= w <= span,
                SCALE == 1_000_000_000_000i128,
        ;
        crate::fx::lemma_tdiv_quotient_bound(w as int * SCALE as int, span as int, SCALE as int);
        lemma_tdiv_mag(w as int * SCALE as int, span as int);
    }
    let t: i128 = tdiv_exec(w * SCALE, span);
    proof {
        assert(0 <= t * t <= SCALE * SCALE) by (nonlinear_arith)
            requires
                0 <= t <= SCALE,
        ;
        crate::fx::lemma_tdiv_quotient_bound(t as int * t as int, SCALE as int, SCALE as int);
        lemma_tdiv_mag(t as int * t as int, SCALE as int);
    }
    let t2: i128 = tdiv_exec(t * t, SCALE);
    proof {
        let c = coef as int;
        let m = if c >= 0 {
            c
        } else {
            -c
        };
        assert(-(m * SCALE) <= c * t2 <= m * SCALE) by (nonlinear_arith)
            requires
                0 <= t2 <= SCALE,
                m >= 0,
                -m <= c <= m,
                SCALE == 1_000_000_000_000i128,
        ;
        crate::fx::lemma_tdiv_quotient_bound(c * t2 as int, SCALE as int, m);
    }
    let corr: i128 = tdiv_exec(coef * t2, SCALE);
    h0 + lin + corr
}

/// Quadratic interpolation of the altitude over the samples at and after
/// index `i`, holding the last sample's altitude beyond the end.
pub open spec fn interp_h_from(ss: Seq<RayState>, i: int, p: i128) -> int
    recommends
        0 <= i < ss.len(),
    decreases ss.len() - i,
{
    if i < 0 || i >= ss.len() - 1 {
        if 0 <= i < ss.len() {
            ss[i].h as int
        } else {
            0
        }
    } else if p <= ss[i + 1].x {
        quad_interp(
            ss[i].x as int,
            ss[i].h as int,
            ss[i].dr as int,
            ss[i + 1].x as int,
            ss[i + 1].h as int,
            p as int,
        )
    } else {
        interp_h_from(ss, i + 1, p)
    }
}

/// Linear interpolation of the slope over the samples, as `interp_h_from`.
pub open spec fn interp_dr_from(ss: Seq<RayState>, i: int, p: i128) -> int
    recommends
        0 <= i < ss.len(),
    decreases ss.len() - i,
{
    if i < 0 || i >= ss.len() - 1 {
        if 0 <= i < ss.len() {
            ss[i].dr as int
        } else {
            0
        }
    } else if p <= ss[i + 1].x {
        crate::atmosphere::lerp(ss[i].x as int, ss[i].dr as int, ss[i + 1].x as int, ss[i + 1].dr as int, p as int)
    } else {
        interp_dr_from(ss, i + 1, p)
    }
}

/// Altitude of the trajectory at parameter `p`, clamped to the ends.
pub open spec fn h_at_param(ss: Seq<RayState>, p: i128) -> int {
    if p <= ss[0].x {
        ss[0].h as int
    } else {
        interp_h_from(ss, 0, p)
    }
}

/// Slope (with respect to the parameter) at parameter `p`.
pub open spec fn dr_at_param(ss: Seq<RayState>, p: i128) -> int {
    if p <= ss[0].x {
        ss[0].dr as int
    } else {
        interp_dr_from(ss, 0, p)
    }
}

/// Altitude of the path at ground distance `d`.
pub open spec fn h_at_dist_spec(shape: EarthShape, ss: Seq<RayState>, d: i128) -> int {
    h_at_param(ss, param_of_dist(shape, d) as i128)
}

/// Tangent of the local ray angle at ground distance `d`: the slope itself
/// for a flat planet, `dr / (h + radius)` for a spherical one; `None` where
/// the local radius vanishes.
pub open spec fn slope_at_dist_spec(shape: EarthShape, ss: Seq<RayState>, d: i128) -> Option<int> {
    let p = param_of_dist(shape, d) as i128;
    let drp = dr_at_param(ss, p);
    match shape {
        EarthShape::Flat => Some(drp),
        EarthShape::Spherical { radius } => {
            let rloc = h_at_param(ss, p) + radius;
            if rloc < 1 {
                None
            } else {
                Some(tdiv(drp * SCALE, rloc))
            }
        },
    }
}

/// A queryable trajectory: the geometry it was cast under and the accepted
/// integrator samples, ordered by the parameter.
pub struct Path {
    pub shape: EarthShape,
    pub samples: Vec<RayState>,
}

/// A queryable path: accepted shape, at least one sample starting at
/// parameter zero, samples in range, parameters strictly increasing with
/// bounded gaps.
pub open spec fn path_wf(shape: EarthShape, ss: Seq<RayState>) -> bool {
    &&& shape_ok(shape)
    &&& ss.len() >= 1
    &&& ss[0].x == 0
    &&& forall|i: int| 0 <= i < ss.len() ==> state_ok(#[trigger] ss[i])
    &&& forall|i: int|
        0 <= i < ss.len() - 1 ==> #[trigger] ss[i].x < ss[i + 1].x && ss[i + 1].x - ss[i].x
            <= GAP_LIM
}

/// Interpolation between two in-range samples stays between its endpoints.
proof fn lemma_lerp_wide_bounds(h0: int, v0: int, h1: int, v1: int, h: int)
    requires
        h0 < h <= h1,
        h1 - h0 <= GAP_LIM,
        -HGT_LIM <= v0 <= HGT_LIM,
        -HGT_LIM <= v1 <= HGT_LIM,
    ensures
        v0 <= v1 ==> v0 <= crate::atmosphere::lerp(h0, v0, h1, v1, h) <= v1,
        v1 <= v0 ==> v1 <= crate::atmosphere::lerp(h0, v0, h1, v1, h) <= v0,
{
    let dv = v1 - v0;
    let w = h - h0;
    let span = h1 - h0;
    if dv >= 0 {
        assert(0 <= dv * w <= dv * span) by (nonlinear_arith)
            requires
                dv >= 0,
                0 <= w <= span,
        ;
        lemma_tdiv_quotient_bound(dv * w, span, dv);
        lemma_tdiv_mag(dv * w, span);
    } else {
        assert(-((-dv) * span) <= dv * w <= 0) by (nonlinear_arith)
            requires
                dv < 0,
                0 < w <= span,
        ;
        lemma_tdiv_quotient_bound(dv * w, span, -dv);
        lemma_tdiv_mag(dv * w, span);
    }
}

/// Executable interpolation between two in-range samples.
fn lerp_wide(h0: i128, v0: i128, h1: i128, v1: i128, h: i128) -> (r: i128)
    requires
        h0 < h <= h1,
        h1 - h0 <= GAP_LIM,
        -HGT_LIM <= v0 <= HGT_LIM,
        -HGT_LIM <= v1 <= HGT_LIM,
    ensures
        r as int == crate::atmosphere::lerp(h0 as int, v0 as int, h1 as int, v1 as int, h as int),
        v0 <= v1 ==> v0 <= r <= v1,
        v1 <= v0 ==> v1 <= r <= v0,
{
    proof {
        lemma_lerp_wide_bounds(h0 as int, v0 as int, h1 as int, v1 as int, h as int);
        assert(-(2 * HGT_LIM * GAP_LIM) <= (v1 - v0) * (h - h0) <= 2 * HGT_LIM * GAP_LIM)
            by (nonlinear_arith)
            requires
                -2 * HGT_LIM <= v1 - v0 <= 2 * HGT_LIM,
                0 <= h - h0 <= GAP_LIM,
                HGT_LIM == 100_000_000_000_000_000_000i128,
                GAP_LIM == 100_000_000_000_000_000i128,
        ;
    }
    let dv: i128 = v1 - v0;
    let w: i128 = h - h0;
    let q: i128 = tdiv_exec(dv * w, h1 - h0);
    v0 + q
}

impl Path {
    /// Altitude (fixed-point meters) of the ray at ground distance `dist`.
    #[verifier::rlimit(60)]
    pub fn h_at_dist(&self, dist: i128) -> (r: i128)
        requires
            path_wf(self.shape, self.samples@),
            0 <= dist <= MAX_DIST,
        ensures
            r as int == h_at_dist_spec(self.shape, self.samples@, dist),
            -H_QUERY_BOUND <= r <= H_QUERY_BOUND,
    {
        let ghost ss = self.samples@;
        let p = dist_to_param(&self.shape, dist);
        if p <= self.samples[0].x {
            return self.samples[0].h;
        }
        let mut i: usize = 0;
        while i < self.samples.len() - 1 && p > self.samples[i + 1].x
            invariant
                path_wf(self.shape, ss),
                ss == self.samples@,
                0 <= i < ss.len(),
                p > ss[i as int].x,
                interp_h_from(ss, i as int, p) == interp_h_from(ss, 0, p),
            decreases ss.len() - i,
        {
            proof {
                assert(interp_h_from(ss, i as int, p) == interp_h_from(ss, i as int + 1, p));
            }
            i += 1;
        }
        if i + 1 == self.samples.len() {
            self.samples[i].h
        } else {
            quad_wide(
                self.samples[i].x,
                self.samples[i].h,
                self.samples[i].dr,
                self.samples[i + 1].x,
                self.samples[i + 1].h,
                p,
            )
        }
    }

    /// Slope of the altitude with respect to the integration parameter at
    /// ground distance `dist`, by interpolation.
    #[verifier::rlimit(60)]
    fn dr_at_dist(&self, dist: i128) -> (r: i128)
        requires
            path_wf(self.shape, self.samples@),
            0 <= dist <= MAX_DIST,
        ensures
            r as int == dr_at_param(
                self.samples@,
                param_of_dist(self.shape, dist) as i128,
            ),
            -SLOPE_LIM <= r <= SLOPE_LIM,
    {
        let ghost ss = self.samples@;
        let p = dist_to_param(&self.shape, dist);
        if p <= self.samples[0].x {
            return self.samples[0].dr;
        }
        let mut i: usize = 0;
        while i < self.samples.len() - 1 && p > self.samples[i + 1].x
            invariant
                path_wf(self.shape, ss),
                ss == self.samples@,
                0 <= i < ss.len(),
                p > ss[i as int].x,
                interp_dr_from(ss, i as int, p) == interp_dr_from(ss, 0, p),
            decreases ss.len() - i,
        {
            proof {
                assert(interp_dr_from(ss, i as int, p) == interp_dr_from(ss, i as int + 1, p));
            }
            i += 1;
        }
        if i + 1 == self.samples.len() {
            self.samples[i].dr
        } else {
            lerp_wide(
                self.samples[i].x,
                self.samples[i].dr,
                self.samples[i + 1].x,
                self.samples[i + 1].dr,
                p,
            )
        }
    }

    /// Tangent of the local ray angle above horizontal at ground distance
    /// `dist`; `None` where the local spherical radius vanishes.
    pub fn slope_at_dist(&self, dist: i128) -> (r: Option<i128>)
        requires
            path_wf(self.shape, self.samples@),
            0 <= dist <= MAX_DIST,
        ensures
            r is Some <==> slope_at_dist_spec(self.shape, self.samples@, dist) is Some,
            r matches Some(v) ==> v as int == slope_at_dist_spec(
                self.shape,
                self.samples@,
                dist,
            )->0,
    {
        let drp = self.dr_at_dist(dist);
        match self.shape {
            EarthShape::Flat => Some(drp),
            EarthShape::Spherical { radius } => {
                let hp = self.h_at_dist(dist);
                let rloc: i128 = hp + radius;
                if rloc < 1 {
                    None
                } else {
                    proof {
                        assert(drp * SCALE <= i128::MAX && drp * SCALE >= i128::MIN)
                            by (nonlinear_arith)
                            requires
                                -SLOPE_LIM <= drp <= SLOPE_LIM,
                                SLOPE_LIM == 20_000_000_000_000_000_000i128,
                                SCALE == 1_000_000_000_000i128,
                        ;
                    }
                    match fx_div(drp, rloc) {
                        Some(v) => Some(v),
                        None => None,
                    }
                }
            },
        }
    }
}

/// The bisection search for the distance at which the path's altitude
/// crosses `tgt`: the bracket `[lo, hi]` halves toward the crossing,
/// keeping the half whose lower end lies at or below the target, until it
/// is narrower than `DIST_TOL`; the result is the bracket's midpoint.
pub open spec fn bisect_spec(
    shape: EarthShape,
    ss: Seq<RayState>,
    tgt: i128,
    lo: int,
    hi: int,
) -> int
    recommends
        0 <= lo <= hi,
    decreases hi - lo,
{
    if hi - lo <= DIST_TOL {
        lo + tdiv(hi - lo, 2)
    } else {
        let mid = lo + tdiv(hi - lo, 2);
        if h_at_dist_spec(shape, ss, mid as i128) > tgt {
            bisect_spec(shape, ss, tgt, lo, mid)
        } else {
            bisect_spec(shape, ss, tgt, mid, hi)
        }
    }
}

/// Distance (fixed-point meters) at which the path's altitude crosses
/// `tgt_h`, found by bisection over `[0, MAX_DIST]`. Where the altitude is
/// not monotonic or never crosses the target, the search still converges
/// to the midpoint of its final bracket; it does not verify the crossing.
pub fn find_dist_for_h(ray: &Path, tgt_h: i128) -> (r: i128)
    requires
        path_wf(ray.shape, ray.samples@),
    ensures
        r as int == bisect_spec(ray.shape, ray.samples@, tgt_h, 0, MAX_DIST as int),
        0 <= r <= MAX_DIST,
{
    let mut lo: i128 = 0;
    let mut hi: i128 = MAX_DIST;
    while hi - lo > DIST_TOL
        invariant
            path_wf(ray.shape, ray.samples@),
            0 <= lo <= hi <= MAX_DIST,
            bisect_spec(ray.shape, ray.samples@, tgt_h, lo as int, hi as int) == bisect_spec(
                ray.shape,
                ray.samples@,
                tgt_h,
                0,
                MAX_DIST as int,
            ),
        decreases hi - lo,
    {
        let mid: i128 = lo + tdiv_exec(hi - lo, 2);
        let h = ray.h_at_dist(mid);
        if h > tgt_h {
            hi = mid;
        } else {
            lo = mid;
        }
    }
    lo + tdiv_exec(hi - lo, 2)
}

/// Recomputing the crossing distance on one path gives the same answer:
/// the search is a function of the path and the target alone.
pub proof fn lemma_find_dist_idempotent(
    shape: EarthShape,
    ss: Seq<RayState>,
    tgt: i128,
    r1: int,
    r2: int,
)
    requires
        r1 == bisect_spec(shape, ss, tgt, 0, MAX_DIST as int),
        r2 == bisect_spec(shape, ss, tgt, 0, MAX_DIST as int),
    ensures
        r1 == r2,
{
}

/// The initial ray state of a cast from altitude `start_h` with launch
/// tangent `tangent`: for a spherical planet the parameter is the polar
/// angle, so the slope is `tangent * (start_h + radius)`.
pub open spec fn init_state_spec(shape: EarthShape, start_h: i128, tangent: i128) -> Option<
    RayState,
> {
    match shape {
        EarthShape::Flat => Some(RayState { x: 0, h: start_h, dr: tangent }),
        EarthShape::Spherical { radius } => {
            if !in_i128(start_h + radius) || start_h + radius < 1 {
                None
            } else {
                match fx_mul_spec(tangent, (start_h + radius) as i128) {
                    None => None,
                    Some(dr0) => Some(RayState { x: 0, h: start_h, dr: dr0 }),
                }
            }
        },
    }
}

/// The single-layer table of an unrefracting medium: zero pressure, so the
/// refractive index is exactly one everywhere and its gradient is zero.
pub open spec fn vacuum_table() -> Seq<AtmoLayer> {
    seq![AtmoLayer { h: 0, p: 0, t: 288_000_000_000_000 }]
}

/// The table a cast integrates over: the vacuum for a straight-line cast,
/// the environment's atmosphere otherwise.
pub open spec fn cast_table(atm: Seq<AtmoLayer>, straight: bool) -> Seq<AtmoLayer> {
    if straight {
        vacuum_table()
    } else {
        atm
    }
}

/// A trajectory starting at parameter zero is a well-formed path.
proof fn lemma_traj_wf(shape: EarthShape, table: Seq<AtmoLayer>, init: RayState, ss: Seq<RayState>)
    requires
        trajectory_ok(shape, table, init, ss),
        init.x == 0,
        shape_ok(shape),
    ensures
        path_wf(shape, ss),
{
    reveal(step_ok);
    assert forall|i: int| 0 <= i < ss.len() - 1 implies #[trigger] ss[i].x < ss[i + 1].x && ss[i
        + 1].x - ss[i].x <= GAP_LIM by {
        assert(step_ok(shape, table, ss[i], ss[i + 1]));
    }
}

/// The path `p` is the cast of the ray launched from `start_h` with
/// tangent `tangent` under `env` (through the vacuum where `straight`),
/// integrated at least out to the ground distance `extent_dist`: it starts
/// at that ray's initial state and every later sample is an accepted
/// integrator step from its predecessor.
pub open spec fn is_cast_to(
    env: Environment,
    start_h: i128,
    tangent: i128,
    straight: bool,
    p: Path,
    extent_dist: i128,
) -> bool {
    &&& p.shape == env.shape
    &&& path_wf(p.shape, p.samples@)
    &&& (init_state_spec(env.shape, start_h, tangent) matches Some(init) && p.samples@[0] == init
        && trajectory_ok(env.shape, cast_table(env.atmosphere@, straight), init, p.samples@))
    &&& p.samples@.last().x >= param_of_dist(env.shape, extent_dist)
}

/// The path `p` is the full cast of the given ray, out to `MAX_DIST`.
pub open spec fn is_cast(
    env: Environment,
    start_h: i128,
    tangent: i128,
    straight: bool,
    p: Path,
) -> bool {
    is_cast_to(env, start_h, tangent, straight, p, MAX_DIST)
}

/// Casts a ray from altitude `start_h` with the given launch tangent,
/// integrating out to the ground distance `extent_dist`; with `straight`
/// the ray crosses an unrefracting medium and is a geometric straight
/// line. `Err(DomainError)` where the ray leaves the valid region.
pub fn cast_ray_to(
    env: &Environment,
    start_h: i128,
    tangent: i128,
    straight: bool,
    extent_dist: i128,
) -> (r: Result<Path, PathError>)
    requires
        env_wf(*env),
        -START_H_LIM <= start_h <= START_H_LIM,
        0 <= extent_dist <= MAX_DIST,
    ensures
        r matches Ok(p) ==> is_cast_to(*env, start_h, tangent, straight, p, extent_dist),
        env.shape == EarthShape::Flat && tangent == 0 && (straight || table_uniform(
            env.atmosphere@,
        )) ==> r is Ok,
{
    let dr0: i128 = match env.shape {
        EarthShape::Flat => tangent,
        EarthShape::Spherical { radius } => {
            let r0 = match start_h.checked_add(radius) {
                Some(v) => v,
                None => {
                    return Err(PathError::DomainError);
                },
            };
            if r0 < 1 {
                return Err(PathError::DomainError);
            }
            match fx_mul(tangent, r0) {
                Some(v) => v,
                None => {
                    return Err(PathError::DomainError);
                },
            }
        },
    };
    if !(-SLOPE_LIM <= dr0 && dr0 <= SLOPE_LIM) {
        return Err(PathError::DomainError);
    }
    let init = RayState { x: 0, h: start_h, dr: dr0 };
    let extent = dist_to_param(&env.shape, extent_dist);
    let outcome: Result<Vec<RayState>, PathError> = if straight {
        let mut layers: Vec<AtmoLayer> = Vec::new();
        layers.push(AtmoLayer { h: 0, p: 0, t: 288_000_000_000_000 });
        proof {
            assert(layers@ =~= vacuum_table());
            assert(table_uniform(layers@));
        }
        match Atmosphere::from_layers(layers) {
            Some(vac) => integrate(&env.shape, &vac, init, extent),
            None => {
                return Err(PathError::DomainError);
            },
        }
    } else {
        integrate(&env.shape, &env.atmosphere, init, extent)
    };
    match outcome {
        Ok(samples) => {
            proof {
                lemma_traj_wf(
                    env.shape,
                    cast_table(env.atmosphere@, straight),
                    init,
                    samples@,
                );
            }
            Ok(Path { shape: env.shape, samples })
        },
        Err(e) => Err(e),
    }
}

/// Casts a ray from altitude `start_h` with the given launch tangent,
/// integrating out to `MAX_DIST`. A level ray over a flat planet through
/// an altitude-independent medium (or cast straight) always succeeds.
pub fn cast_ray(env: &Environment, start_h: i128, tangent: i128, straight: bool) -> (r: Result<
    Path,
    PathError,
>)
    requires
        env_wf(*env),
        -START_H_LIM <= start_h <= START_H_LIM,
    ensures
        r matches Ok(p) ==> is_cast(*env, start_h, tangent, straight, p),
        env.shape == EarthShape::Flat && tangent == 0 && (straight || table_uniform(
            env.atmosphere@,
        )) ==> r is Ok,
{
    cast_ray_to(env, start_h, tangent, straight, MAX_DIST)
}

/// Finds by a shooting search the launch tangent whose free cast passes
/// through altitude `tgt_h` at distance `tgt_dist`, and returns that cast.
/// The search bisects the bracket `[-TAN_LIM, TAN_LIM]`;
/// `Err(NumericalNonConvergence)` where the bracket does not enclose the
/// target or the found cast misses it by more than `DIST_TOL`.
pub fn cast_ray_target(
    env: &Environment,
    start_h: i128,
    tgt_h: i128,
    tgt_dist: i128,
    straight: bool,
) -> (r: Result<Path, PathError>)
    requires
        env_wf(*env),
        -START_H_LIM <= start_h <= START_H_LIM,
        -HGT_LIM <= tgt_h <= HGT_LIM,
        0 <= tgt_dist <= MAX_DIST,
    ensures
        r matches Ok(p) ==> (p.shape == env.shape && path_wf(p.shape, p.samples@) && -DIST_TOL
            <= h_at_dist_spec(p.shape, p.samples@, tgt_dist) - tgt_h <= DIST_TOL),
        r matches Ok(p) ==> p.samples@[0].x == 0 && p.samples@[0].h == start_h,
        r matches Ok(p) ==> (exists|t: i128| #[trigger] is_cast(*env, start_h, t, straight, p)),
{
    let mut lo: i128 = -TAN_LIM;
    let mut hi: i128 = TAN_LIM;
    // a cast that leaves the valid region downward (a crashed ray) counts
    // as lying below the target, so a steep downward bracket edge still
    // brackets it
    match cast_ray_to(env, start_h, lo, straight, tgt_dist) {
        Ok(p) => {
            if p.h_at_dist(tgt_dist) > tgt_h {
                return Err(PathError::NumericalNonConvergence);
            }
        },
        Err(_) => {},
    };
    // a steep upward cast that leaves the valid region has escaped far
    // above any target, so it still brackets the target from above
    match cast_ray_to(env, start_h, hi, straight, tgt_dist) {
        Ok(p) => {
            if p.h_at_dist(tgt_dist) < tgt_h {
                return Err(PathError::NumericalNonConvergence);
            }
        },
        Err(PathError::DomainError) => {},
        Err(e) => {
            return Err(e);
        },
    };
    while hi - lo > TAN_TOL
        invariant
            env_wf(*env),
            -START_H_LIM <= start_h <= START_H_LIM,
            0 <= tgt_dist <= MAX_DIST,
            -TAN_LIM <= lo <= hi <= TAN_LIM,
        decreases hi - lo,
    {
        let mid: i128 = lo + tdiv_exec(hi - lo, 2);
        match cast_ray_to(env, start_h, mid, straight, tgt_dist) {
            Ok(pm) => {
                if pm.h_at_dist(tgt_dist) > tgt_h {
                    hi = mid;
                } else {
                    lo = mid;
                }
            },
            Err(_) => {
                // a failed cast left the valid region or lost the step-size
                // fight near the planet's center: downward-pointing rays
                // crash below the target, upward-pointing ones escape above
                // it; the final residual check still decides success
                if mid >= 0 {
                    hi = mid;
                } else {
                    lo = mid;
                }
            },
        };
    }
    let found: i128 = lo + tdiv_exec(hi - lo, 2);
    let pm = match cast_ray(env, start_h, found, straight) {
        Ok(p) => p,
        Err(e) => {
            return Err(e);
        },
    };
    let hm = pm.h_at_dist(tgt_dist);
    let miss: i128 = hm - tgt_h;
    if -DIST_TOL <= miss && miss <= DIST_TOL {
        proof {
            assert(is_cast(*env, start_h, found, straight, pm));
        }
        Ok(pm)
    } else {
        Err(PathError::NumericalNonConvergence)
    }
}

/// Round trip of the shooting solver: a path returned by the target-seeking
/// cast, queried at the target distance, gives the target altitude within
/// the bisection tolerance `DIST_TOL`. `q` is what `h_at_dist` returns on
/// such a path, by its own contract.
pub proof fn lemma_target_roundtrip(
    shape: EarthShape,
    ss: Seq<RayState>,
    tgt_h: i128,
    tgt_dist: i128,
    q: int,
)
    requires
        -DIST_TOL <= h_at_dist_spec(shape, ss, tgt_dist) - tgt_h <= DIST_TOL,
        q == h_at_dist_spec(shape, ss, tgt_dist),
    ensures
        -DIST_TOL <= q - tgt_h <= DIST_TOL,
{
}

/// The astronomical deflection from the ray's angles (fixed-point radians)
/// at the observer and at the atmosphere's boundary, `dist` apart on the
/// ground: their difference, plus the planet's curvature `dist / radius`
/// for a spherical shape.
pub open spec fn deflection_spec(
    start_ang: i128,
    final_ang: i128,
    dist: i128,
    shape: EarthShape,
) -> Option<int> {
    match shape {
        EarthShape::Flat => if in_i128(start_ang - final_ang) {
            Some(start_ang - final_ang)
        } else {
            None
        },
        EarthShape::Spherical { radius } => match fx_div_spec(dist, radius) {
            None => None,
            Some(corr) => if in_i128(start_ang - final_ang) && in_i128(
                start_ang - final_ang + corr,
            ) {
                Some(start_ang - final_ang + corr)
            } else {
                None
            },
        },
    }
}

/// Astronomical deflection angle, in fixed-point radians.
pub fn astronomical_deflection(start_ang: i128, final_ang: i128, dist: i128, shape: &EarthShape)
    -> (r: Option<i128>)
    requires
        shape_ok(*shape),
    ensures
        r is Some <==> deflection_spec(start_ang, final_ang, dist, *shape) is Some,
        r matches Some(v) ==> v as int == deflection_spec(start_ang, final_ang, dist, *shape)->0,
{
    match shape {
        EarthShape::Flat => match start_ang.checked_sub(final_ang) {
            Some(v) => Some(v),
            None => None,
        },
        EarthShape::Spherical { radius } => {
            let corr = match fx_div(dist, *radius) {
                Some(v) => v,
                None => {
                    return None;
                },
            };
            let base = match start_ang.checked_sub(final_ang) {
                Some(v) => v,
                None => {
                    return None;
                },
            };
            match base.checked_add(corr) {
                Some(v) => Some(v),
                None => None,
            }
        },
    }
}

} // verus!
