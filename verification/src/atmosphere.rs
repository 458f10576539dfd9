//! The atmosphere as the core consumes it: a piecewise-linear table mapping
//! altitude to pressure and temperature, and the refractive-index model
//! derived from it. The surrounding layer supplies the table (a built-in
//! standard profile or one read from a configuration file); the core only
//! ever reads it.

use vstd::prelude::*;
use crate::fx::{fx_div, fx_div_spec, fx_mul, fx_mul_spec, lemma_tdiv_mag, lemma_tdiv_quotient_bound, tdiv, tdiv_exec, SCALE};

verus! {

/// Greatest altitude magnitude (in fixed-point meters) a table may mention
/// or a query may ask for: twenty thousand kilometers.
pub const H_LIM: i128 = 20_000_000_000_000_000_000;

/// Greatest pressure a table may hold: one megapascal, in fixed point.
pub const P_LIM: i128 = 1_000_000_000_000_000_000;

/// Least temperature a table may hold: one millikelvin, in fixed point.
pub const T_MIN: i128 = 1_000_000_000;

/// Greatest temperature a table may hold, in fixed point.
pub const T_LIM: i128 = 1_000_000_000_000_000_000;

/// Empirical refractivity constant: `n - 1 = K_REFR * pressure / temperature`
/// with pressure in pascals and temperature in kelvins, for green light
/// (530 nm wavelength) and dry air. `7.86e-7` in fixed point.
pub const K_REFR: i128 = 786_000;

/// Step of the centered finite difference estimating `d(n-1)/dh`:
/// one centimeter, in fixed-point meters.
pub const EPS_FD: i128 = 10_000_000_000;

/// Greatest altitude at which the finite difference may probe.
pub const H_QUERY_LIM: i128 = 19_999_999_980_000_000_000;

/// Upper bound on the refractivity `n - 1` that the table bounds force.
pub const N1_LIM: i128 = 1_000_000_000_000_000;

/// Upper bound on the magnitude of the refractivity gradient `dn`.
pub const DN_LIM: i128 = 100_000_000_000_000_000;

/// One sample of the atmosphere: altitude (m), pressure (Pa) and
/// temperature (K), all in fixed point.
#[derive(Clone, Copy, Debug, PartialEq, Eq, Structural)]
pub struct AtmoLayer {
    pub h: i128,
    pub p: i128,
    pub t: i128,
}

/// A layer's values lie in the ranges the arithmetic is proved for.
pub open spec fn layer_ok(l: AtmoLayer) -> bool {
    &&& -H_LIM <= l.h <= H_LIM
    &&& 0 <= l.p <= P_LIM
    &&& T_MIN <= l.t <= T_LIM
}

/// A well-formed table: at least one layer, every layer in range, altitudes
/// strictly increasing.
pub open spec fn table_wf(s: Seq<AtmoLayer>) -> bool {
    &&& s.len() >= 1
    &&& forall|i: int| 0 <= i < s.len() ==> layer_ok(#[trigger] s[i])
    &&& forall|i: int| 0 <= i < s.len() - 1 ==> #[trigger] s[i].h < s[i + 1].h
}

/// Every layer carries the same pressure and temperature: an
/// altitude-independent medium.
pub open spec fn table_uniform(s: Seq<AtmoLayer>) -> bool {
    forall|i: int| 0 <= i < s.len() ==> #[trigger] s[i].p == s[0].p && s[i].t == s[0].t
}

/// Linear interpolation between `(h0, v0)` and `(h1, v1)` at `h`, with the
/// quotient truncated toward zero.
pub open spec fn lerp(h0: int, v0: int, h1: int, v1: int, h: int) -> int
    recommends
        h0 < h1,
{
    v0 + tdiv((v1 - v0) * (h - h0), h1 - h0)
}

/// Interpolated pressure over the segments at and after index `i`,
/// holding the last layer's value beyond the table's end.
pub open spec fn interp_p_from(s: Seq<AtmoLayer>, i: int, h: i128) -> int
    recommends
        0 <= i < s.len(),
    decreases s.len() - i,
{
    if i < 0 || i >= s.len() - 1 {
        if 0 <= i < s.len() {
            s[i].p as int
        } else {
            0
        }
    } else if h <= s[i + 1].h {
        lerp(s[i].h as int, s[i].p as int, s[i + 1].h as int, s[i + 1].p as int, h as int)
    } else {
        interp_p_from(s, i + 1, h)
    }
}

/// Interpolated temperature, as `interp_p_from`.
pub open spec fn interp_t_from(s: Seq<AtmoLayer>, i: int, h: i128) -> int
    recommends
        0 <= i < s.len(),
    decreases s.len() - i,
{
    if i < 0 || i >= s.len() - 1 {
        if 0 <= i < s.len() {
            s[i].t as int
        } else {
            0
        }
    } else if h <= s[i + 1].h {
        lerp(s[i].h as int, s[i].t as int, s[i + 1].h as int, s[i + 1].t as int, h as int)
    } else {
        interp_t_from(s, i + 1, h)
    }
}

/// Pressure the table gives at altitude `h`: the first layer's value below
/// the table, the last layer's value above it, linear in between.
pub open spec fn pressure_spec(s: Seq<AtmoLayer>, h: i128) -> int {
    if h <= s[0].h {
        s[0].p as int
    } else {
        interp_p_from(s, 0, h)
    }
}

/// Temperature the table gives at altitude `h`, as `pressure_spec`.
pub open spec fn temperature_spec(s: Seq<AtmoLayer>, h: i128) -> int {
    if h <= s[0].h {
        s[0].t as int
    } else {
        interp_t_from(s, 0, h)
    }
}

/// The atmosphere the ray model reads: a well-formed table of layers.
pub struct Atmosphere {
    layers: Vec<AtmoLayer>,
}

impl View for Atmosphere {
    type V = Seq<AtmoLayer>;

    closed spec fn view(&self) -> Seq<AtmoLayer> {
        self.layers@
    }
}

/// Truncated interpolation stays between its endpoints.
proof fn lemma_lerp_bounds(h0: int, v0: int, h1: int, v1: int, h: int)
    requires
        h0 < h <= h1,
        -H_LIM <= h0,
        h1 <= H_LIM,
        -P_LIM <= v0 <= P_LIM,
        -P_LIM <= v1 <= P_LIM,
    ensures
        v0 <= v1 ==> v0 <= lerp(h0, v0, h1, v1, h) <= v1,
        v1 <= v0 ==> v1 <= lerp(h0, v0, h1, v1, h) <= v0,
{
    let dv = v1 - v0;
    let w = h - h0;
    let span = h1 - h0;
    if dv >= 0 {
        assert(dv * w <= dv * span) by (nonlinear_arith)
            requires
                dv >= 0,
                w <= span,
        ;
        assert(dv * w >= 0) by (nonlinear_arith)
            requires
                dv >= 0,
                w >= 0,
        ;
        lemma_tdiv_quotient_bound(dv * w, span, dv);
        lemma_tdiv_mag(dv * w, span);
    } else {
        assert(-((-dv) * span) <= dv * w <= (-dv) * span) by (nonlinear_arith)
            requires
                dv < 0,
                0 < w <= span,
        ;
        assert(dv * w <= 0) by (nonlinear_arith)
            requires
                dv < 0,
                w > 0,
        ;
        lemma_tdiv_quotient_bound(dv * w, span, -dv);
        lemma_tdiv_mag(dv * w, span);
    }
}

/// Interpolation in a table whose pressure and temperature never change
/// gives the first layer's values everywhere.
pub proof fn lemma_uniform_interp(s: Seq<AtmoLayer>, i: int, h: i128)
    requires
        table_wf(s),
        table_uniform(s),
        0 <= i < s.len(),
    ensures
        interp_p_from(s, i, h) == s[0].p as int,
        interp_t_from(s, i, h) == s[0].t as int,
    decreases s.len() - i,
{
    if i < s.len() - 1 {
        if h <= s[i + 1].h {
            let h0 = s[i].h as int;
            let h1 = s[i + 1].h as int;
            let v = s[0].p as int;
            let vt = s[0].t as int;
            assert(s[i].p == v && s[i + 1].p == v);
            assert((v - v) * (h - h0) == 0) by (nonlinear_arith);
            assert((vt - vt) * (h - h0) == 0) by (nonlinear_arith);
            lemma_tdiv_mag(0, h1 - h0);
        } else {
            lemma_uniform_interp(s, i + 1, h);
        }
    }
}

/// Executable linear interpolation between two in-range table points.
fn lerp_exec(h0: i128, v0: i128, h1: i128, v1: i128, h: i128) -> (r: i128)
    requires
        -H_LIM <= h0 < h <= h1 <= H_LIM,
        -P_LIM <= v0 <= P_LIM,
        -P_LIM <= v1 <= P_LIM,
    ensures
        r as int == lerp(h0 as int, v0 as int, h1 as int, v1 as int, h as int),
        v0 <= v1 ==> v0 <= r <= v1,
        v1 <= v0 ==> v1 <= r <= v0,
{
    proof {
        lemma_lerp_bounds(h0 as int, v0 as int, h1 as int, v1 as int, h as int);
        assert((v1 - v0) * (h - h0) <= 4 * P_LIM * H_LIM && (v1 - v0) * (h - h0) >= -4 * P_LIM
            * H_LIM) by (nonlinear_arith)
            requires
                -2 * P_LIM <= v1 - v0 <= 2 * P_LIM,
                0 <= h - h0 <= 2 * H_LIM,
                P_LIM == 1_000_000_000_000_000_000i128,
                H_LIM == 20_000_000_000_000_000_000i128,
        ;
    }
    let dv: i128 = v1 - v0;
    let w: i128 = h - h0;
    let q: i128 = tdiv_exec(dv * w, h1 - h0);
    v0 + q
}

impl Atmosphere {
    /// Builds an atmosphere from a table of layers; `None` where the table
    /// is not well formed.
    pub fn from_layers(layers: Vec<AtmoLayer>) -> (r: Option<Atmosphere>)
        ensures
            r matches Some(a) ==> a@ == layers@ && table_wf(layers@),
            r is None ==> !table_wf(layers@),
    {
        if layers.len() == 0 {
            return None;
        }
        let mut i: usize = 0;
        while i < layers.len()
            invariant
                0 <= i <= layers.len(),
                forall|j: int| 0 <= j < i ==> layer_ok(#[trigger] layers@[j]),
                forall|j: int| 0 <= j < i && j < layers@.len() - 1 ==> #[trigger] layers@[j].h
                    < layers@[j + 1].h,
            decreases layers.len() - i,
        {
            let l = layers[i];
            if !(-H_LIM <= l.h && l.h <= H_LIM && 0 <= l.p && l.p <= P_LIM && T_MIN <= l.t && l.t
                <= T_LIM) {
                return None;
            }
            if i + 1 < layers.len() {
                if !(l.h < layers[i + 1].h) {
                    return None;
                }
            }
            i += 1;
        }
        Some(Atmosphere { layers })
    }

    /// The number of layers in the table.
    pub fn len(&self) -> (r: usize)
        ensures
            r == self@.len(),
    {
        self.layers.len()
    }

    /// Pressure (fixed-point pascals) at altitude `h`, by linear
    /// interpolation, clamped to the table's ends.
    pub fn pressure(&self, h: i128) -> (r: i128)
        requires
            table_wf(self@),
            -H_LIM <= h <= H_LIM,
        ensures
            r as int == pressure_spec(self@, h),
            0 <= r <= P_LIM,
    {
        let ghost s = self@;
        if h <= self.layers[0].h {
            return self.layers[0].p;
        }
        let mut i: usize = 0;
        while i < self.layers.len() - 1 && h > self.layers[i + 1].h
            invariant
                table_wf(s),
                s == self@,
                -H_LIM <= h <= H_LIM,
                0 <= i < s.len(),
                h > s[i as int].h,
                interp_p_from(s, i as int, h) == interp_p_from(s, 0, h),
            decreases s.len() - i,
        {
            proof {
                assert(interp_p_from(s, i as int, h) == interp_p_from(s, i as int + 1, h));
            }
            i += 1;
        }
        if i + 1 == self.layers.len() {
            self.layers[i].p
        } else {
            lerp_exec(
                self.layers[i].h,
                self.layers[i].p,
                self.layers[i + 1].h,
                self.layers[i + 1].p,
                h,
            )
        }
    }

    /// Temperature (fixed-point kelvins) at altitude `h`, as `pressure`.
    pub fn temperature(&self, h: i128) -> (r: i128)
        requires
            table_wf(self@),
            -H_LIM <= h <= H_LIM,
        ensures
            r as int == temperature_spec(self@, h),
            T_MIN <= r <= T_LIM,
    {
        let ghost s = self@;
        if h <= self.layers[0].h {
            return self.layers[0].t;
        }
        let mut i: usize = 0;
        while i < self.layers.len() - 1 && h > self.layers[i + 1].h
            invariant
                table_wf(s),
                s == self@,
                -H_LIM <= h <= H_LIM,
                0 <= i < s.len(),
                h > s[i as int].h,
                interp_t_from(s, i as int, h) == interp_t_from(s, 0, h),
            decreases s.len() - i,
        {
            proof {
                assert(interp_t_from(s, i as int, h) == interp_t_from(s, i as int + 1, h));
            }
            i += 1;
        }
        if i + 1 == self.layers.len() {
            self.layers[i].t
        } else {
            lerp_exec(
                self.layers[i].h,
                self.layers[i].t,
                self.layers[i + 1].h,
                self.layers[i + 1].t,
                h,
            )
        }
    }
}

/// Refractivity `n - 1` the table gives at altitude `h`:
/// `K_REFR * pressure / temperature`, in fixed point.
pub open spec fn n_minus_1_spec(s: Seq<AtmoLayer>, h: i128) -> int {
    tdiv(tdiv(K_REFR * pressure_spec(s, h), SCALE as int) * SCALE, temperature_spec(s, h))
}

/// Refractive index the table gives at altitude `h`: `1 + (n - 1)`.
pub open spec fn n_spec(s: Seq<AtmoLayer>, h: i128) -> int {
    SCALE + n_minus_1_spec(s, h)
}

/// Centered finite-difference estimate of `d(n-1)/dh` at altitude `h`.
pub open spec fn dn_spec(s: Seq<AtmoLayer>, h: i128) -> int {
    tdiv(
        (n_minus_1_spec(s, (h + EPS_FD) as i128) - n_minus_1_spec(s, (h - EPS_FD) as i128))
            * SCALE,
        2 * EPS_FD,
    )
}

/// Refractivity `n - 1` at altitude `h`: a standard empirical dry-air
/// formula over the table's pressure and temperature.
pub fn n_minus_1(atm: &Atmosphere, h: i128) -> (r: i128)
    requires
        table_wf(atm@),
        -H_LIM <= h <= H_LIM,
    ensures
        r as int == n_minus_1_spec(atm@, h),
        0 <= r <= N1_LIM,
{
    let p = atm.pressure(h);
    let t = atm.temperature(h);
    proof {
        assert(K_REFR * p <= i128::MAX && K_REFR * p >= 0) by (nonlinear_arith)
            requires
                0 <= p <= P_LIM,
                K_REFR == 786_000i128,
                P_LIM == 1_000_000_000_000_000_000i128,
        ;
        lemma_tdiv_mag(K_REFR as int * p as int, SCALE as int);
    }
    let kp = match fx_mul(K_REFR, p) {
        Some(v) => v,
        None => 0,
    };
    proof {
        lemma_tdiv_quotient_bound(K_REFR as int * p as int, SCALE as int, 786_000_000_000i128 as int);
        assert(kp * SCALE <= i128::MAX && kp * SCALE >= 0) by (nonlinear_arith)
            requires
                0 <= kp <= 786_000_000_000i128,
                SCALE == 1_000_000_000_000i128,
        ;
        lemma_tdiv_mag(kp as int * SCALE as int, t as int);
        lemma_tdiv_quotient_bound(kp as int * SCALE as int, t as int, N1_LIM as int);
        assert(kp * SCALE <= N1_LIM * t) by (nonlinear_arith)
            requires
                0 <= kp <= 786_000_000_000i128,
                t >= T_MIN,
                T_MIN == 1_000_000_000i128,
                SCALE == 1_000_000_000_000i128,
                N1_LIM == 1_000_000_000_000_000i128,
        ;
    }
    let r = match fx_div(kp, t) {
        Some(v) => v,
        None => 0,
    };
    r
}

/// Refractive index at altitude `h`: `1 + n_minus_1`, always at least one.
pub fn n(atm: &Atmosphere, h: i128) -> (r: i128)
    requires
        table_wf(atm@),
        -H_LIM <= h <= H_LIM,
    ensures
        r as int == n_spec(atm@, h),
        SCALE <= r <= SCALE + N1_LIM,
{
    SCALE + n_minus_1(atm, h)
}

/// Altitude derivative of the refractivity at `h`, by a centered finite
/// difference with a one-centimeter step.
pub fn dn(atm: &Atmosphere, h: i128) -> (r: i128)
    requires
        table_wf(atm@),
        -H_QUERY_LIM <= h <= H_QUERY_LIM,
    ensures
        r as int == dn_spec(atm@, h),
        -DN_LIM <= r <= DN_LIM,
{
    let n1 = n_minus_1(atm, h - EPS_FD);
    let n2 = n_minus_1(atm, h + EPS_FD);
    let diff: i128 = n2 - n1;
    proof {
        assert(diff * SCALE <= i128::MAX && diff * SCALE >= i128::MIN) by (nonlinear_arith)
            requires
                -N1_LIM <= diff <= N1_LIM,
                N1_LIM == 1_000_000_000_000_000i128,
                SCALE == 1_000_000_000_000i128,
        ;
        lemma_tdiv_mag(diff as int * SCALE as int, 2 * EPS_FD as int);
        lemma_tdiv_quotient_bound(diff as int * SCALE as int, 2 * EPS_FD as int, DN_LIM as int);
        assert(diff * SCALE <= DN_LIM * (2 * EPS_FD) && diff * SCALE >= -(DN_LIM * (2
            * EPS_FD))) by (nonlinear_arith)
            requires
                -N1_LIM <= diff <= N1_LIM,
                N1_LIM == 1_000_000_000_000_000i128,
                SCALE == 1_000_000_000_000i128,
                DN_LIM == 100_000_000_000_000_000i128,
                EPS_FD == 10_000_000_000i128,
        ;
    }
    let r = match fx_div(diff, 2 * EPS_FD) {
        Some(v) => v,
        None => 0,
    };
    r
}

} // verus!
