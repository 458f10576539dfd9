//! The ODE state of a light ray and its derivative, with the small
//! vector-space algebra the integrator combines derivative estimates with,
//! and the curvature equations for flat and spherical geometry.
//!
//! For a flat planet the integration parameter `x` is the distance along the
//! baseline in meters; for a spherical planet it is the polar angle in
//! radians, so that the spherical curvature equation's geometric terms are
//! exact. All fields are fixed point (`10^-12` units).

use vstd::prelude::*;
use crate::atmosphere::{
    dn, dn_spec, n, n_spec, table_wf, Atmosphere, AtmoLayer, H_QUERY_LIM,
};
use crate::fx::{fx_div, fx_div_spec, fx_mul, fx_mul_spec, fx_sqrt, lemma_tdiv_mag, FX_SQRT_MAX, SCALE};

verus! {

/// Ray state: `x` the integration parameter (meters or radians), `h` the
/// altitude above the reference level (meters), `dr` the slope `dh/dx`.
#[derive(Clone, Copy, Debug, PartialEq, Eq, Structural)]
pub struct RayState {
    pub x: i128,
    pub h: i128,
    pub dr: i128,
}

/// Derivative of a ray state with respect to `x`: `dx` is one by
/// construction (`x` is the parameter itself), `dr` repeats the state's
/// slope, `d2r` is the curvature term.
#[derive(Clone, Copy, Debug, PartialEq, Eq, Structural)]
pub struct RayStateDerivative {
    pub dx: i128,
    pub dr: i128,
    pub d2r: i128,
}

/// A value fits in an `i128`.
pub open spec fn in_i128(x: int) -> bool {
    i128::MIN <= x <= i128::MAX
}

/// Componentwise sum, or `None` where a component leaves the range.
pub open spec fn rsd_add_spec(a: RayStateDerivative, b: RayStateDerivative) -> Option<
    RayStateDerivative,
> {
    if in_i128(a.dx + b.dx) && in_i128(a.dr + b.dr) && in_i128(a.d2r + b.d2r) {
        Some(
            RayStateDerivative {
                dx: (a.dx + b.dx) as i128,
                dr: (a.dr + b.dr) as i128,
                d2r: (a.d2r + b.d2r) as i128,
            },
        )
    } else {
        None
    }
}

/// Componentwise difference, or `None` where a component leaves the range.
pub open spec fn rsd_sub_spec(a: RayStateDerivative, b: RayStateDerivative) -> Option<
    RayStateDerivative,
> {
    if in_i128(a.dx - b.dx) && in_i128(a.dr - b.dr) && in_i128(a.d2r - b.d2r) {
        Some(
            RayStateDerivative {
                dx: (a.dx - b.dx) as i128,
                dr: (a.dr - b.dr) as i128,
                d2r: (a.d2r - b.d2r) as i128,
            },
        )
    } else {
        None
    }
}

/// Componentwise fixed-point scaling.
pub open spec fn rsd_mul_spec(a: RayStateDerivative, s: i128) -> Option<RayStateDerivative> {
    match fx_mul_spec(a.dx, s) {
        None => None,
        Some(dx) => match fx_mul_spec(a.dr, s) {
            None => None,
            Some(dr) => match fx_mul_spec(a.d2r, s) {
                None => None,
                Some(d2r) => Some(RayStateDerivative { dx, dr, d2r }),
            },
        },
    }
}

/// Componentwise fixed-point division by a nonzero scalar: a negative
/// scalar divides by its magnitude and negates the result, as truncating
/// division does.
pub open spec fn rsd_div_spec(a: RayStateDerivative, s: i128) -> Option<RayStateDerivative>
    recommends
        s != 0,
        s != i128::MIN,
{
    let d = if s >= 1 {
        s
    } else {
        (-s) as i128
    };
    match fx_div_spec(a.dx, d) {
        None => None,
        Some(dx) => match fx_div_spec(a.dr, d) {
            None => None,
            Some(dr) => match fx_div_spec(a.d2r, d) {
                None => None,
                Some(d2r) => if s >= 1 {
                    Some(RayStateDerivative { dx, dr, d2r })
                } else if in_i128(-dx) && in_i128(-dr) && in_i128(-d2r) {
                    Some(
                        RayStateDerivative {
                            dx: (-dx) as i128,
                            dr: (-dr) as i128,
                            d2r: (-d2r) as i128,
                        },
                    )
                } else {
                    None
                },
            },
        },
    }
}

/// Componentwise negation.
pub open spec fn rsd_neg_spec(a: RayStateDerivative) -> Option<RayStateDerivative> {
    if in_i128(-a.dx) && in_i128(-a.dr) && in_i128(-a.d2r) {
        Some(RayStateDerivative { dx: (-a.dx) as i128, dr: (-a.dr) as i128, d2r: (-a.d2r) as i128 })
    } else {
        None
    }
}

/// Sum of the squares of the components, the square of the Euclidean
/// magnitude, or `None` where it leaves the range.
pub open spec fn rsd_abs_sq_spec(a: RayStateDerivative) -> Option<i128> {
    match fx_mul_spec(a.dx, a.dx) {
        None => None,
        Some(sx) => match fx_mul_spec(a.dr, a.dr) {
            None => None,
            Some(sr) => match fx_mul_spec(a.d2r, a.d2r) {
                None => None,
                Some(s2) => if in_i128(sx + sr) && in_i128(sx + sr + s2) {
                    Some((sx + sr + s2) as i128)
                } else {
                    None
                },
            },
        },
    }
}

impl RayStateDerivative {
    /// Componentwise sum.
    pub fn add(self, other: RayStateDerivative) -> (r: Option<RayStateDerivative>)
        ensures
            r == rsd_add_spec(self, other),
    {
        match (self.dx.checked_add(other.dx), self.dr.checked_add(other.dr), self.d2r.checked_add(
            other.d2r,
        )) {
            (Some(dx), Some(dr), Some(d2r)) => Some(RayStateDerivative { dx, dr, d2r }),
            _ => None,
        }
    }

    /// Componentwise difference.
    pub fn sub(self, other: RayStateDerivative) -> (r: Option<RayStateDerivative>)
        ensures
            r == rsd_sub_spec(self, other),
    {
        match (self.dx.checked_sub(other.dx), self.dr.checked_sub(other.dr), self.d2r.checked_sub(
            other.d2r,
        )) {
            (Some(dx), Some(dr), Some(d2r)) => Some(RayStateDerivative { dx, dr, d2r }),
            _ => None,
        }
    }

    /// Scales every component by the fixed-point factor `s`.
    pub fn mul(self, s: i128) -> (r: Option<RayStateDerivative>)
        ensures
            r == rsd_mul_spec(self, s),
    {
        let dx = match fx_mul(self.dx, s) {
            Some(v) => v,
            None => {
                return None;
            },
        };
        let dr = match fx_mul(self.dr, s) {
            Some(v) => v,
            None => {
                return None;
            },
        };
        let d2r = match fx_mul(self.d2r, s) {
            Some(v) => v,
            None => {
                return None;
            },
        };
        Some(RayStateDerivative { dx, dr, d2r })
    }

    /// Divides every component by the nonzero fixed-point factor `s`. The
    /// least `i128` is excluded because its magnitude is not representable.
    pub fn div(self, s: i128) -> (r: Option<RayStateDerivative>)
        requires
            s != 0,
            s != i128::MIN,
        ensures
            r == rsd_div_spec(self, s),
    {
        let d: i128 = if s >= 1 {
            s
        } else {
            -s
        };
        let dx = match fx_div(self.dx, d) {
            Some(v) => v,
            None => {
                return None;
            },
        };
        let dr = match fx_div(self.dr, d) {
            Some(v) => v,
            None => {
                return None;
            },
        };
        let d2r = match fx_div(self.d2r, d) {
            Some(v) => v,
            None => {
                return None;
            },
        };
        if s >= 1 {
            Some(RayStateDerivative { dx, dr, d2r })
        } else {
            match (0i128.checked_sub(dx), 0i128.checked_sub(dr), 0i128.checked_sub(d2r)) {
                (Some(ndx), Some(ndr), Some(nd2r)) => Some(
                    RayStateDerivative { dx: ndx, dr: ndr, d2r: nd2r },
                ),
                _ => None,
            }
        }
    }

    /// Componentwise negation.
    pub fn neg(self) -> (r: Option<RayStateDerivative>)
        ensures
            r == rsd_neg_spec(self),
    {
        match (0i128.checked_sub(self.dx), 0i128.checked_sub(self.dr), 0i128.checked_sub(
            self.d2r,
        )) {
            (Some(dx), Some(dr), Some(d2r)) => Some(RayStateDerivative { dx, dr, d2r }),
            _ => None,
        }
    }

    /// Euclidean magnitude of the derivative vector, rounded down: the
    /// error norm of the adaptive integrator.
    pub fn abs(&self) -> (r: Option<i128>)
        ensures
            rsd_abs_sq_spec(*self) is None ==> r is None,
            rsd_abs_sq_spec(*self) matches Some(sq) ==> {
                &&& sq > FX_SQRT_MAX ==> r is None
                &&& sq <= FX_SQRT_MAX ==> (r matches Some(v) && v >= 0 && v * v <= sq * SCALE && (
                v + 1) * (v + 1) > sq * SCALE)
            },
    {
        proof {
            assert(self.dx * self.dx >= 0) by (nonlinear_arith);
            assert(self.dr * self.dr >= 0) by (nonlinear_arith);
            assert(self.d2r * self.d2r >= 0) by (nonlinear_arith);
            if self.dx * self.dx <= i128::MAX {
                lemma_tdiv_mag(self.dx as int * self.dx as int, SCALE as int);
            }
            if self.dr * self.dr <= i128::MAX {
                lemma_tdiv_mag(self.dr as int * self.dr as int, SCALE as int);
            }
            if self.d2r * self.d2r <= i128::MAX {
                lemma_tdiv_mag(self.d2r as int * self.d2r as int, SCALE as int);
            }
        }
        let sx = match fx_mul(self.dx, self.dx) {
            Some(v) => v,
            None => {
                return None;
            },
        };
        let sr = match fx_mul(self.dr, self.dr) {
            Some(v) => v,
            None => {
                return None;
            },
        };
        let s2 = match fx_mul(self.d2r, self.d2r) {
            Some(v) => v,
            None => {
                return None;
            },
        };
        let sum1 = match sx.checked_add(sr) {
            Some(v) => v,
            None => {
                return None;
            },
        };
        let sum = match sum1.checked_add(s2) {
            Some(v) => v,
            None => {
                return None;
            },
        };
        if sum <= FX_SQRT_MAX {
            Some(fx_sqrt(sum))
        } else {
            None
        }
    }
}

/// The state advanced along a derivative by `amount` of the parameter:
/// `x += dx * amount`, `h += dr * amount`, `dr += d2r * amount`.
pub open spec fn shift_spec(st: RayState, dir: RayStateDerivative, amount: i128) -> Option<
    RayState,
> {
    match fx_mul_spec(dir.dx, amount) {
        None => None,
        Some(mx) => match fx_mul_spec(dir.dr, amount) {
            None => None,
            Some(mh) => match fx_mul_spec(dir.d2r, amount) {
                None => None,
                Some(mdr) => if in_i128(st.x + mx) && in_i128(st.h + mh) && in_i128(st.dr + mdr) {
                    Some(
                        RayState {
                            x: (st.x + mx) as i128,
                            h: (st.h + mh) as i128,
                            dr: (st.dr + mdr) as i128,
                        },
                    )
                } else {
                    None
                },
            },
        },
    }
}

impl RayState {
    /// Advances the state in place; `false` leaves it unchanged (the shift
    /// would have left the representable range).
    pub fn shift_in_place(&mut self, dir: &RayStateDerivative, amount: i128) -> (ok: bool)
        ensures
            shift_spec(*old(self), *dir, amount) matches Some(s2) ==> ok && *final(self) == s2,
            shift_spec(*old(self), *dir, amount) is None ==> !ok && *final(self) == *old(self),
    {
        let mx = match fx_mul(dir.dx, amount) {
            Some(v) => v,
            None => {
                return false;
            },
        };
        let mh = match fx_mul(dir.dr, amount) {
            Some(v) => v,
            None => {
                return false;
            },
        };
        let mdr = match fx_mul(dir.d2r, amount) {
            Some(v) => v,
            None => {
                return false;
            },
        };
        match (self.x.checked_add(mx), self.h.checked_add(mh), self.dr.checked_add(mdr)) {
            (Some(x), Some(h), Some(dr)) => {
                self.x = x;
                self.h = h;
                self.dr = dr;
                true
            },
            _ => false,
        }
    }
}

/// The flat-planet curvature: `d2r = (dn/n) * (1 + dr^2)`, evaluated in
/// fixed point, `None` where the altitude leaves the modeled range or a
/// step of the arithmetic leaves the representable range.
pub open spec fn deriv_flat_spec(s: Seq<AtmoLayer>, st: RayState) -> Option<RayStateDerivative> {
    if st.h < -H_QUERY_LIM || st.h > H_QUERY_LIM {
        None
    } else {
        let nr = n_spec(s, st.h) as i128;
        let dnr = dn_spec(s, st.h) as i128;
        match fx_div_spec(dnr, nr) {
            None => None,
            Some(dnn) => match fx_mul_spec(st.dr, st.dr) {
                None => None,
                Some(dr2) => if dr2 + SCALE > i128::MAX || dr2 + SCALE < i128::MIN {
                    None
                } else {
                    match fx_mul_spec(dnn, (dr2 + SCALE) as i128) {
                        None => None,
                        Some(d2r) => Some(RayStateDerivative { dx: SCALE, dr: st.dr, d2r }),
                    }
                },
            },
        }
    }
}

/// Flat-planet derivative of the ray state.
pub fn calc_derivative_flat(atm: &Atmosphere, state: &RayState) -> (r: Option<RayStateDerivative>)
    requires
        table_wf(atm@),
    ensures
        r == deriv_flat_spec(atm@, *state),
{
    if state.h < -H_QUERY_LIM || state.h > H_QUERY_LIM {
        return None;
    }
    let nr = n(atm, state.h);
    let dnr = dn(atm, state.h);
    let dnn = match fx_div(dnr, nr) {
        Some(v) => v,
        None => {
            return None;
        },
    };
    let dr2 = match fx_mul(state.dr, state.dr) {
        Some(v) => v,
        None => {
            return None;
        },
    };
    let t2 = match dr2.checked_add(SCALE) {
        Some(v) => v,
        None => {
            return None;
        },
    };
    let d2r = match fx_mul(dnn, t2) {
        Some(v) => v,
        None => {
            return None;
        },
    };
    Some(RayStateDerivative { dx: SCALE, dr: state.dr, d2r })
}

/// The spherical-planet curvature in polar coordinates, with local radius
/// `r = h + radius`:
/// `d2r = dr^2 * (dn/n) + r^2 * (dn/n) + 2 * dr^2 / r + r`.
/// `None` where the ray is at or below the planet's center (`r < 1` unit,
/// a domain violation), the altitude leaves the modeled range, or a step
/// of the arithmetic leaves the representable range.
pub open spec fn deriv_spherical_spec(s: Seq<AtmoLayer>, radius: i128, st: RayState) -> Option<
    RayStateDerivative,
> {
    if st.h < -H_QUERY_LIM || st.h > H_QUERY_LIM || !in_i128(st.h + radius) || st.h + radius < 1 {
        None
    } else {
        let r_loc = (st.h + radius) as i128;
        let nr = n_spec(s, st.h) as i128;
        let dnr = dn_spec(s, st.h) as i128;
        match fx_div_spec(dnr, nr) {
            None => None,
            Some(dnn) => match term_chain_spec(st.dr, r_loc, dnn) {
                None => None,
                Some(d2r) => Some(RayStateDerivative { dx: SCALE, dr: st.dr, d2r }),
            },
        }
    }
}

/// The three curvature terms and the geometric tail for the spherical
/// equation: `dr*(dr*dnn) + r*(r*dnn) + 2*((dr/r)*dr) + r`.
pub open spec fn term_chain_spec(dr: i128, r_loc: i128, dnn: i128) -> Option<i128>
    recommends
        r_loc >= 1,
{
    match fx_mul_spec(dr, dnn) {
        None => None,
        Some(a1) => match fx_mul_spec(dr, a1) {
            None => None,
            Some(a) => match fx_mul_spec(r_loc, dnn) {
                None => None,
                Some(b1) => match fx_mul_spec(r_loc, b1) {
                    None => None,
                    Some(b) => match fx_div_spec(dr, r_loc) {
                        None => None,
                        Some(c1) => match fx_mul_spec(c1, dr) {
                            None => None,
                            Some(c2) => if !in_i128(2 * c2) {
                                None
                            } else {
                                let c = (2 * c2) as i128;
                                if in_i128(a + b) && in_i128(a + b + c) && in_i128(
                                    a + b + c + r_loc,
                                ) {
                                    Some((a + b + c + r_loc) as i128)
                                } else {
                                    None
                                }
                            },
                        },
                    },
                },
            },
        },
    }
}

/// Spherical-planet derivative of the ray state, for a planet of the given
/// fixed-point radius.
pub fn calc_derivative_spherical(atm: &Atmosphere, radius: i128, state: &RayState) -> (r: Option<
    RayStateDerivative,
>)
    requires
        table_wf(atm@),
    ensures
        r == deriv_spherical_spec(atm@, radius, *state),
{
    if state.h < -H_QUERY_LIM || state.h > H_QUERY_LIM {
        return None;
    }
    let r_loc = match state.h.checked_add(radius) {
        Some(v) => v,
        None => {
            return None;
        },
    };
    if r_loc < 1 {
        return None;
    }
    let nr = n(atm, state.h);
    let dnr = dn(atm, state.h);
    let dnn = match fx_div(dnr, nr) {
        Some(v) => v,
        None => {
            return None;
        },
    };
    let a1 = match fx_mul(state.dr, dnn) {
        Some(v) => v,
        None => {
            return None;
        },
    };
    let a = match fx_mul(state.dr, a1) {
        Some(v) => v,
        None => {
            return None;
        },
    };
    let b1 = match fx_mul(r_loc, dnn) {
        Some(v) => v,
        None => {
            return None;
        },
    };
    let b = match fx_mul(r_loc, b1) {
        Some(v) => v,
        None => {
            return None;
        },
    };
    let c1 = match fx_div(state.dr, r_loc) {
        Some(v) => v,
        None => {
            return None;
        },
    };
    let c2 = match fx_mul(c1, state.dr) {
        Some(v) => v,
        None => {
            return None;
        },
    };
    let c = match c2.checked_mul(2) {
        Some(v) => v,
        None => {
            return None;
        },
    };
    let ab = match a.checked_add(b) {
        Some(v) => v,
        None => {
            return None;
        },
    };
    let abc = match ab.checked_add(c) {
        Some(v) => v,
        None => {
            return None;
        },
    };
    let d2r = match abc.checked_add(r_loc) {
        Some(v) => v,
        None => {
            return None;
        },
    };
    Some(RayStateDerivative { dx: SCALE, dr: state.dr, d2r })
}

} // verus!
