//! The trajectory integrator: a classical four-stage Runge-Kutta step over
//! the ray-state vector algebra, driven adaptively by step doubling. A step
//! is accepted when the Euclidean magnitude of the difference between one
//! full step and two half steps stays under a tolerance proportional to
//! the step, and when the arc's sagitta stays small enough for the stored
//! samples to be interpolated between; the step grows when the error is
//! far under the tolerance and shrinks when it is over it, down to a floor
//! that forces termination.

use vstd::prelude::*;
use crate::atmosphere::{table_uniform, table_wf, Atmosphere, AtmoLayer, H_QUERY_LIM};
use crate::fx::{lemma_tdiv_mag, tdiv, SCALE};
use crate::ray_state::{
    calc_derivative_flat, calc_derivative_spherical, deriv_flat_spec, deriv_spherical_spec,
    in_i128, rsd_add_spec, rsd_div_spec, shift_spec, RayState, RayStateDerivative,
};
use vstd::arithmetic::div_mod::lemma_div_multiples_vanish;

verus! {

/// The planet's geometry: flat, or spherical with a fixed-point radius in
/// meters. Decides which curvature equation drives the ray.
#[derive(Clone, Copy, Debug, PartialEq, Eq, Structural)]
pub enum EarthShape {
    Flat,
    Spherical { radius: i128 },
}

/// How a core operation fails: the ray left the physically valid or
/// representable region, or a numerical search or integration exhausted
/// its budget without reaching its tolerance.
#[derive(Clone, Copy, Debug, PartialEq, Eq, Structural)]
pub enum PathError {
    DomainError,
    NumericalNonConvergence,
}

/// The fixed-point number six: the Runge-Kutta weight divisor.
pub const SIX_FX: i128 = 6_000_000_000_000;

/// Largest step quantum; an accepted step advances the parameter by four
/// quanta at most (`GAP_LIM`).
pub const Q_MAX: i128 = 25_000_000_000_000_000;

/// Largest parameter advance of one accepted step.
pub const GAP_LIM: i128 = 100_000_000_000_000_000;

/// Allowed error per unit of parameter advanced, in fixed-point units: the
/// step-doubling error norm of a step may reach `ERR_RATE` times the step.
pub const ERR_RATE: i128 = 20_000_000;

/// Absolute floor of the allowed error of one step, covering the rounding
/// noise of the fixed-point arithmetic.
pub const ERR_FLOOR: i128 = 10;

/// Greatest parameter value a trajectory may reach.
pub const X_LIM: i128 = 10_000_000_000_000_000_000;

/// Greatest extent an integration may be asked for, leaving room for one
/// final overshooting step under `X_LIM`.
pub const X_EXTENT_LIM: i128 = 9_900_000_000_000_000_000;

/// Greatest altitude magnitude a trajectory may reach.
pub const HGT_LIM: i128 = 100_000_000_000_000_000_000;

/// Greatest slope magnitude a trajectory may reach.
pub const SLOPE_LIM: i128 = 20_000_000_000_000_000_000;

/// Allowed sagitta of one accepted step: the altitude by which the true
/// arc may depart from the straight line between two samples, which caps
/// the error of querying the trajectory between samples.
pub const SAG_TOL: i128 = 100_000_000_000;

/// A sample the integrator may emit: parameter, altitude and slope inside
/// the ranges all downstream arithmetic is proved for.
pub open spec fn state_ok(st: RayState) -> bool {
    &&& 0 <= st.x <= X_LIM
    &&& -HGT_LIM <= st.h <= HGT_LIM
    &&& -SLOPE_LIM <= st.dr <= SLOPE_LIM
}

/// The curvature equation the shape selects.
pub open spec fn deriv_spec(shape: EarthShape, s: Seq<AtmoLayer>, st: RayState) -> Option<
    RayStateDerivative,
> {
    match shape {
        EarthShape::Flat => deriv_flat_spec(s, st),
        EarthShape::Spherical { radius } => deriv_spherical_spec(s, radius, st),
    }
}

/// Derivative of the ray state under the given geometry.
pub fn calc_derivative(shape: &EarthShape, atm: &Atmosphere, state: &RayState) -> (r: Option<
    RayStateDerivative,
>)
    requires
        table_wf(atm@),
    ensures
        r == deriv_spec(*shape, atm@, *state),
{
    match shape {
        EarthShape::Flat => calc_derivative_flat(atm, state),
        EarthShape::Spherical { radius } => calc_derivative_spherical(atm, *radius, state),
    }
}

/// One classical Runge-Kutta step of size `2 * q`: four derivative stages
/// at the start, two midpoints and the end, combined with weights
/// `1, 2, 2, 1` over six. `None` where any stage leaves the valid region.
#[verifier::opaque]
pub open spec fn rk4_spec(shape: EarthShape, s: Seq<AtmoLayer>, st: RayState, q: i128) -> Option<
    RayState,
>
    recommends
        q >= 1,
{
    if !in_i128(2 * q) {
        None
    } else {
        match deriv_spec(shape, s, st) {
            None => None,
            Some(k1) => match shift_spec(st, k1, q) {
                None => None,
                Some(s1) => match deriv_spec(shape, s, s1) {
                    None => None,
                    Some(k2) => match shift_spec(st, k2, q) {
                        None => None,
                        Some(s2) => match deriv_spec(shape, s, s2) {
                            None => None,
                            Some(k3) => match shift_spec(st, k3, (2 * q) as i128) {
                                None => None,
                                Some(s3) => match deriv_spec(shape, s, s3) {
                                    None => None,
                                    Some(k4) => match rsd_add_spec(k2, k3) {
                                        None => None,
                                        Some(t1) => match rsd_add_spec(t1, t1) {
                                            None => None,
                                            Some(t2) => match rsd_add_spec(k1, k4) {
                                                None => None,
                                                Some(t3) => match rsd_add_spec(t2, t3) {
                                                    None => None,
                                                    Some(ksum) => match rsd_div_spec(
                                                        ksum,
                                                        SIX_FX,
                                                    ) {
                                                        None => None,
                                                        Some(avg) => shift_spec(
                                                            st,
                                                            avg,
                                                            (2 * q) as i128,
                                                        ),
                                                    },
                                                },
                                            },
                                        },
                                    },
                                },
                            },
                        },
                    },
                },
            },
        }
    }
}

/// Division cancels an exact multiple, truncating or not.
pub proof fn lemma_tdiv_cancel(y: int, d: int)
    requires
        d >= 1,
    ensures
        tdiv(y * d, d) == y,
{
    if y >= 0 {
        lemma_div_multiples_vanish(y, d);
        assert(y * d == d * y) by (nonlinear_arith);
    } else {
        lemma_div_multiples_vanish(-y, d);
        assert(-(y * d) == d * (-y)) by (nonlinear_arith);
    }
}

/// A completed Runge-Kutta step advances the parameter by exactly `2 * q`:
/// every stage derivative carries `dx == SCALE` (one unit of parameter per
/// unit of parameter), so the weighted average does too.
pub proof fn lemma_rk4_advance(shape: EarthShape, s: Seq<AtmoLayer>, st: RayState, q: i128)
    requires
        q >= 1,
        rk4_spec(shape, s, st, q) is Some,
    ensures
        (rk4_spec(shape, s, st, q)->0).x == st.x + 2 * q,
{
    reveal(rk4_spec);
    let k1 = deriv_spec(shape, s, st)->0;
    let s1 = shift_spec(st, k1, q)->0;
    let k2 = deriv_spec(shape, s, s1)->0;
    let s2 = shift_spec(st, k2, q)->0;
    let k3 = deriv_spec(shape, s, s2)->0;
    let s3 = shift_spec(st, k3, (2 * q) as i128)->0;
    let k4 = deriv_spec(shape, s, s3)->0;
    assert(k1.dx == SCALE && k2.dx == SCALE && k3.dx == SCALE && k4.dx == SCALE);
    let t1 = rsd_add_spec(k2, k3)->0;
    let t2 = rsd_add_spec(t1, t1)->0;
    let t3 = rsd_add_spec(k1, k4)->0;
    let ksum = rsd_add_spec(t2, t3)->0;
    assert(ksum.dx == 6 * SCALE);
    let avg = rsd_div_spec(ksum, SIX_FX)->0;
    assert(avg.dx == SCALE) by {
        assert(ksum.dx * SCALE == SCALE * SIX_FX) by (nonlinear_arith)
            requires
                ksum.dx == 6 * SCALE,
                SIX_FX == 6 * SCALE,
        ;
        lemma_tdiv_cancel(SCALE as int, SIX_FX as int);
    }
    assert((rk4_spec(shape, s, st, q)->0).x == st.x + 2 * q) by {
        assert(avg.dx * (2 * q) == (2 * q) * SCALE) by (nonlinear_arith)
            requires
                avg.dx == SCALE,
        ;
        lemma_tdiv_cancel(2 * q, SCALE as int);
    }
}

/// One executable Runge-Kutta step of size `2 * q`.
pub fn rk4_step(shape: &EarthShape, atm: &Atmosphere, st: &RayState, q: i128) -> (r: Option<
    RayState,
>)
    requires
        table_wf(atm@),
        q >= 1,
    ensures
        r == rk4_spec(*shape, atm@, *st, q),
{
    proof {
        reveal(rk4_spec);
    }
    let q2 = match q.checked_mul(2) {
        Some(v) => v,
        None => {
            return None;
        },
    };
    let k1 = match calc_derivative(shape, atm, st) {
        Some(v) => v,
        None => {
            return None;
        },
    };
    let mut s1 = *st;
    if !s1.shift_in_place(&k1, q) {
        return None;
    }
    let k2 = match calc_derivative(shape, atm, &s1) {
        Some(v) => v,
        None => {
            return None;
        },
    };
    let mut s2 = *st;
    if !s2.shift_in_place(&k2, q) {
        return None;
    }
    let k3 = match calc_derivative(shape, atm, &s2) {
        Some(v) => v,
        None => {
            return None;
        },
    };
    let mut s3 = *st;
    if !s3.shift_in_place(&k3, q2) {
        return None;
    }
    let k4 = match calc_derivative(shape, atm, &s3) {
        Some(v) => v,
        None => {
            return None;
        },
    };
    let t1 = match k2.add(k3) {
        Some(v) => v,
        None => {
            return None;
        },
    };
    let t2 = match t1.add(t1) {
        Some(v) => v,
        None => {
            return None;
        },
    };
    let t3 = match k1.add(k4) {
        Some(v) => v,
        None => {
            return None;
        },
    };
    let ksum = match t2.add(t3) {
        Some(v) => v,
        None => {
            return None;
        },
    };
    let avg = match ksum.div(SIX_FX) {
        Some(v) => v,
        None => {
            return None;
        },
    };
    let mut out = *st;
    if !out.shift_in_place(&avg, q2) {
        return None;
    }
    Some(out)
}

/// Two consecutive trajectory samples are one accepted adaptive step: the
/// parameter advances by four quanta, and the later sample is the
/// composition of two Runge-Kutta steps of two quanta each from the
/// earlier one.
#[verifier::opaque]
pub open spec fn step_ok(shape: EarthShape, s: Seq<AtmoLayer>, a: RayState, b: RayState) -> bool {
    let d = b.x - a.x;
    let q = (d / 4) as i128;
    &&& 4 <= d <= GAP_LIM
    &&& d % 4 == 0
    &&& (rk4_spec(shape, s, a, q) matches Some(m) && rk4_spec(shape, s, m, q) == Some(b))
}

/// A well-formed trajectory for `shape` over the table `s`: it starts at
/// `init`, every sample is in range, and consecutive samples are accepted
/// adaptive steps.
pub open spec fn trajectory_ok(
    shape: EarthShape,
    s: Seq<AtmoLayer>,
    init: RayState,
    samples: Seq<RayState>,
) -> bool {
    &&& samples.len() >= 1
    &&& samples[0] == init
    &&& forall|i: int| 0 <= i < samples.len() ==> state_ok(#[trigger] samples[i])
    &&& forall|i: int|
        0 <= i < samples.len() - 1 ==> step_ok(shape, s, #[trigger] samples[i], samples[i + 1])
}

/// The one input class on which the integrator owes success: a level ray
/// (zero slope) over a flat planet through an altitude-independent medium.
/// There the curvature is exactly zero, both half steps and the full step
/// agree exactly, and every step is accepted.
pub open spec fn level_flat_uniform(shape: EarthShape, s: Seq<AtmoLayer>, init: RayState) -> bool {
    &&& shape == EarthShape::Flat
    &&& table_uniform(s)
    &&& init.dr == 0
    &&& -H_QUERY_LIM <= init.h <= H_QUERY_LIM
}

/// Integrates the ray from `init` until the parameter reaches `extent`,
/// returning the accepted samples. `Err(DomainError)` where the ray leaves
/// the valid region, `Err(NumericalNonConvergence)` where the step floor is
/// reached before the error tolerance is met. On a level flat ray through
/// a uniform medium it always succeeds.
#[verifier::rlimit(100)]
pub fn integrate(shape: &EarthShape, atm: &Atmosphere, init: RayState, extent: i128) -> (r: Result<
    Vec<RayState>,
    PathError,
>)
    requires
        table_wf(atm@),
        state_ok(init),
        0 <= extent <= X_EXTENT_LIM,
    ensures
        r matches Ok(samples) ==> trajectory_ok(*shape, atm@, init, samples@) && samples@.last().x
            >= extent,
        level_flat_uniform(*shape, atm@, init) ==> r is Ok,
{
    let mut samples: Vec<RayState> = Vec::new();
    samples.push(init);
    let mut cur = init;
    // the starting quantum does not depend on the extent, so two casts of
    // the same ray to different extents accept the same steps while both
    // are running
    let mut q: i128 = 65536;
    while cur.x < extent
        invariant
            table_wf(atm@),
            state_ok(init),
            0 <= extent <= X_EXTENT_LIM,
            1 <= q <= Q_MAX,
            samples@.len() >= 1,
            samples@[0] == init,
            samples@.last() == cur,
            forall|i: int| 0 <= i < samples@.len() ==> state_ok(#[trigger] samples@[i]),
            forall|i: int|
                0 <= i < samples@.len() - 1 ==> step_ok(
                    *shape,
                    atm@,
                    #[trigger] samples@[i],
                    samples@[i + 1],
                ),
            level_flat_uniform(*shape, atm@, init) ==> cur.h == init.h && cur.dr == 0,
        decreases extent + GAP_LIM - cur.x, q,
    {
        let mid = rk4_step(shape, atm, &cur, q);
        let fine = match mid {
            Some(m) => rk4_step(shape, atm, &m, q),
            None => None,
        };
        let q2 = 2 * q;
        let coarse = rk4_step(shape, atm, &cur, q2);
        proof {
            if level_flat_uniform(*shape, atm@, init) {
                assert(state_ok(samples@[samples@.len() - 1]));
                assert(state_ok(cur));
                crate::laws::lemma_rk4_level(atm@, cur, q);
                let m = RayState { x: (cur.x + 2 * q) as i128, h: cur.h, dr: 0 };
                crate::laws::lemma_rk4_level(atm@, m, q);
                crate::laws::lemma_rk4_level(atm@, cur, q2);
                assert(mid == Some(m));
                let b = RayState { x: (cur.x + 4 * q) as i128, h: cur.h, dr: 0 };
                assert(fine == Some(b));
                assert(coarse == Some(b));
            }
        }
        let step: i128 = 4 * q;
        proof {
            assert(0 <= ERR_RATE * step <= 2_000_000_000_000 * SCALE) by (nonlinear_arith)
                requires
                    0 <= step <= 4 * Q_MAX,
                    ERR_RATE == 20_000_000i128,
                    Q_MAX == 25_000_000_000_000_000i128,
                    SCALE == 1_000_000_000_000i128,
            ;
            lemma_tdiv_mag(ERR_RATE as int * step as int, SCALE as int);
            crate::fx::lemma_tdiv_quotient_bound(
                ERR_RATE as int * step as int,
                SCALE as int,
                2_000_000_000_000,
            );
        }
        let allowed: i128 = match crate::fx::fx_mul(ERR_RATE, step) {
            Some(a0) => a0 + ERR_FLOOR,
            None => ERR_FLOOR,
        };
        let mut accept = false;
        let mut grow = false;
        let mut next = cur;
        match (fine, coarse) {
            (Some(b), Some(big)) => {
                let diff_h = b.h.checked_sub(big.h);
                let diff_dr = b.dr.checked_sub(big.dr);
                match (diff_h, diff_dr) {
                    (Some(dh), Some(ddr)) => {
                        // the slope error is compared as a tangent, so both
                        // error components are meters-per-meter quantities
                        let ddr_tan: Option<i128> = match shape {
                            EarthShape::Flat => Some(ddr),
                            EarthShape::Spherical { radius } => {
                                match b.h.checked_add(*radius) {
                                    Some(rl) => {
                                        if rl >= 1 {
                                            crate::fx::fx_div(ddr, rl)
                                        } else {
                                            None
                                        }
                                    },
                                    None => None,
                                }
                            },
                        };
                        // the sagitta estimate: the slope change over the
                        // step, times the step, bounds how far the arc can
                        // depart from the chord between the two samples
                        let sag: Option<i128> = match b.dr.checked_sub(cur.dr) {
                            Some(sc) => {
                                let mag = if sc >= 0 {
                                    Some(sc)
                                } else {
                                    0i128.checked_sub(sc)
                                };
                                match mag {
                                    Some(m) => match crate::fx::fx_mul(m, step) {
                                        Some(v) => Some(crate::fx::tdiv_exec(v, 8)),
                                        None => None,
                                    },
                                    None => None,
                                }
                            },
                            None => None,
                        };
                        match (ddr_tan, sag) {
                            (Some(dt), Some(sg)) => {
                                let err_vec = RayStateDerivative { dx: 0, dr: dh, d2r: dt };
                                match err_vec.abs() {
                                    Some(e) => {
                                        proof {
                                            if e >= 1 {
                                                assert(e * e >= 1) by (nonlinear_arith)
                                                    requires
                                                        e >= 1,
                                                ;
                                            }
                                        }
                                        if e <= allowed && sg <= SAG_TOL {
                                            accept = true;
                                            next = b;
                                            if e * 16 <= allowed && sg * 4 <= SAG_TOL {
                                                grow = true;
                                            }
                                        }
                                    },
                                    None => {},
                                }
                            },
                            _ => {},
                        }
                    },
                    _ => {},
                }
            },
            _ => {},
        }
        proof {
            assert(level_flat_uniform(*shape, atm@, init) ==> accept && next.h == cur.h && next.dr
                == 0);
        }
        if accept {
            proof {
                lemma_rk4_advance(*shape, atm@, cur, q);
                lemma_rk4_advance(*shape, atm@, rk4_spec(*shape, atm@, cur, q)->0, q);
                lemma_div_multiples_vanish(q as int, 4);
                assert(4 * q == q * 4) by (nonlinear_arith);
            }
            if !(next.x <= X_LIM && -HGT_LIM <= next.h && next.h <= HGT_LIM && -SLOPE_LIM <= next.dr
                && next.dr <= SLOPE_LIM) {
                return Err(PathError::DomainError);
            }
            proof {
                assert(step_ok(*shape, atm@, cur, next)) by {
                    reveal(step_ok);
                }
            }
            let ghost old_seq = samples@;
            samples.push(next);
            proof {
                assert(samples@ == old_seq.push(next));
                assert forall|i: int| 0 <= i < samples@.len() - 1 implies step_ok(
                    *shape,
                    atm@,
                    #[trigger] samples@[i],
                    samples@[i + 1],
                ) by {
                    if i < old_seq.len() - 1 {
                        assert(step_ok(*shape, atm@, old_seq[i], old_seq[i + 1]));
                    }
                }
            }
            cur = next;
            if grow && q <= Q_MAX / 2 {
                q = q * 2;
            }
        } else {
            if q >= 2 {
                q = q / 2;
            } else {
                // at the minimal step a missing derivative is a domain
                // violation, an oversized error a failure to converge
                match (fine, coarse) {
                    (Some(_), Some(_)) => {
                        return Err(PathError::NumericalNonConvergence);
                    },
                    _ => {
                        return Err(PathError::DomainError);
                    },
                }
            }
        }
    }
    Ok(samples)
}

} // verus!
