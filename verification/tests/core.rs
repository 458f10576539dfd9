//! Unit tests of the fixed-point arithmetic, the ray-state algebra, the
//! atmosphere table and the refractive-index model.

use refraction::atmosphere::{Atmosphere, AtmoLayer};
use refraction::fx::{fx_div, fx_mul, fx_sqrt, tdiv_exec};
use refraction::integrator::EarthShape;
use refraction::path::astronomical_deflection;
use refraction::ray_state::{RayState, RayStateDerivative};
use refraction::SCALE;

fn fx(v: f64) -> i128 {
    (v * 1e12).round() as i128
}

#[test]
fn fx_mul_exact() {
    assert_eq!(fx_mul(fx(2.0), fx(3.5)), Some(fx(7.0)));
    assert_eq!(fx_mul(fx(-2.0), fx(3.5)), Some(fx(-7.0)));
    assert_eq!(fx_mul(0, fx(123.0)), Some(0));
    // a product beyond the representable range is refused, not wrapped
    assert_eq!(fx_mul(i128::MAX / 2, i128::MAX / 2), None);
}

#[test]
fn fx_div_exact() {
    assert_eq!(fx_div(fx(7.0), fx(2.0)), Some(fx(3.5)));
    assert_eq!(fx_div(fx(-7.0), fx(2.0)), Some(fx(-3.5)));
    assert_eq!(fx_div(fx(1.0), fx(3.0)), Some(333_333_333_333));
}

#[test]
fn fx_sqrt_exact() {
    assert_eq!(fx_sqrt(fx(9.0)), fx(3.0));
    assert_eq!(fx_sqrt(fx(2.0)), 1_414_213_562_373);
    assert_eq!(fx_sqrt(0), 0);
}

#[test]
fn tdiv_truncates_toward_zero() {
    assert_eq!(tdiv_exec(7, 2), 3);
    assert_eq!(tdiv_exec(-7, 2), -3);
}

#[test]
fn derivative_vector_ops() {
    let a = RayStateDerivative { dx: fx(1.0), dr: fx(2.0), d2r: fx(-3.0) };
    let b = RayStateDerivative { dx: fx(0.5), dr: fx(1.0), d2r: fx(1.0) };
    let sum = a.add(b).unwrap();
    assert_eq!(sum.dx, fx(1.5));
    assert_eq!(sum.dr, fx(3.0));
    assert_eq!(sum.d2r, fx(-2.0));
    let diff = a.sub(b).unwrap();
    assert_eq!(diff.dx, fx(0.5));
    assert_eq!(diff.dr, fx(1.0));
    assert_eq!(diff.d2r, fx(-4.0));
    let scaled = a.mul(fx(2.0)).unwrap();
    assert_eq!(scaled.dr, fx(4.0));
    let halved = a.div(fx(2.0)).unwrap();
    assert_eq!(halved.d2r, fx(-1.5));
    let neg = a.neg().unwrap();
    assert_eq!(neg.dx, fx(-1.0));
}

#[test]
fn derivative_div_negative_and_identity() {
    let a = RayStateDerivative { dx: fx(1.0), dr: fx(2.0), d2r: fx(-3.0) };
    let halved = a.div(fx(-2.0)).unwrap();
    assert_eq!(halved.dx, fx(-0.5));
    assert_eq!(halved.dr, fx(-1.0));
    assert_eq!(halved.d2r, fx(1.5));
    // dividing by one returns the vector bit for bit
    assert_eq!(a.div(SCALE), Some(a));
}

#[test]
fn derivative_abs_is_euclidean() {
    let v = RayStateDerivative { dx: fx(3.0), dr: fx(4.0), d2r: 0 };
    assert_eq!(v.abs(), Some(fx(5.0)));
}

#[test]
fn shift_in_place_advances_state() {
    let mut st = RayState { x: 0, h: fx(100.0), dr: fx(0.5) };
    let dir = RayStateDerivative { dx: SCALE, dr: fx(0.5), d2r: fx(0.25) };
    let ok = st.shift_in_place(&dir, fx(10.0));
    assert!(ok);
    assert_eq!(st.x, fx(10.0));
    assert_eq!(st.h, fx(105.0));
    assert_eq!(st.dr, fx(3.0));
}

#[test]
fn atmosphere_rejects_bad_tables() {
    assert!(Atmosphere::from_layers(vec![]).is_none());
    // altitudes out of order
    let bad = vec![
        AtmoLayer { h: fx(100.0), p: fx(1000.0), t: fx(280.0) },
        AtmoLayer { h: fx(0.0), p: fx(900.0), t: fx(270.0) },
    ];
    assert!(Atmosphere::from_layers(bad).is_none());
    // nonpositive temperature
    let cold = vec![AtmoLayer { h: 0, p: fx(1000.0), t: 0 }];
    assert!(Atmosphere::from_layers(cold).is_none());
}

#[test]
fn atmosphere_interpolates_linearly() {
    let atm = Atmosphere::from_layers(vec![
        AtmoLayer { h: 0, p: fx(100000.0), t: fx(280.0) },
        AtmoLayer { h: fx(1000.0), p: fx(90000.0), t: fx(270.0) },
    ])
    .unwrap();
    assert_eq!(atm.pressure(fx(500.0)), fx(95000.0));
    assert_eq!(atm.temperature(fx(500.0)), fx(275.0));
    // clamped to the table's ends
    assert_eq!(atm.pressure(fx(-50.0)), fx(100000.0));
    assert_eq!(atm.pressure(fx(2000.0)), fx(90000.0));
}

#[test]
fn refractive_index_at_sea_level() {
    let atm = Atmosphere::from_layers(vec![
        AtmoLayer { h: fx(-1000.0), p: fx(101325.0), t: fx(288.15) },
        AtmoLayer { h: fx(1000.0), p: fx(101325.0), t: fx(288.15) },
    ])
    .unwrap();
    // n - 1 = 7.86e-7 * 101325 / 288.15, about 2.764e-4, truncated in
    // fixed point
    assert_eq!(refraction::atmosphere::n(&atm, 0), 1_000_276_388_859);
}

#[test]
fn flat_derivative_vanishes_in_uniform_air() {
    let atm = Atmosphere::from_layers(vec![
        AtmoLayer { h: fx(-1000.0), p: fx(101325.0), t: fx(288.15) },
        AtmoLayer { h: fx(1000.0), p: fx(101325.0), t: fx(288.15) },
    ])
    .unwrap();
    let st = RayState { x: 0, h: fx(100.0), dr: fx(0.3) };
    let d = refraction::ray_state::calc_derivative_flat(&atm, &st).unwrap();
    assert_eq!(d.dx, SCALE);
    assert_eq!(d.dr, fx(0.3));
    assert_eq!(d.d2r, 0);
}

#[test]
fn spherical_derivative_is_geometric_in_uniform_air() {
    let atm = Atmosphere::from_layers(vec![
        AtmoLayer { h: fx(-1000.0), p: fx(101325.0), t: fx(288.15) },
        AtmoLayer { h: fx(1000.0), p: fx(101325.0), t: fx(288.15) },
    ])
    .unwrap();
    let radius = fx(6378000.0);
    let st = RayState { x: 0, h: 0, dr: 0 };
    let d = refraction::ray_state::calc_derivative_spherical(&atm, radius, &st).unwrap();
    // with dr = 0 and dn = 0 only the bare geometric `r` term remains
    assert_eq!(d.d2r, radius);
    // a ray below the planet's center is a domain violation
    let sunk = RayState { x: 0, h: -radius, dr: 0 };
    assert!(refraction::ray_state::calc_derivative_spherical(&atm, radius, &sunk).is_none());
}

#[test]
fn deflection_formula_exact() {
    let flat = EarthShape::Flat;
    assert_eq!(astronomical_deflection(fx(0.02), fx(0.015), fx(1000.0), &flat), Some(fx(0.005)));
    let sph = EarthShape::Spherical { radius: fx(1000000.0) };
    // 0.02 - 0.015 + 2000 / 1e6 = 0.005 + 0.002
    assert_eq!(
        astronomical_deflection(fx(0.02), fx(0.015), fx(2000.0), &sph),
        Some(fx(0.007))
    );
}
