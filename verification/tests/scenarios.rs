//! Scenario tests of the ray caster: straight lines in uniform air, the
//! chord of a sphere, the shooting solver's round trip, horizon finding,
//! and monotonicity in the launch angle.

use refraction::atmosphere::{Atmosphere, AtmoLayer};
use refraction::integrator::{EarthShape, PathError};
use refraction::params::{create_path, Output, Params, RayData, RayDir};
use refraction::path::{astronomical_deflection, cast_ray, cast_ray_target, find_dist_for_h, Environment, DIST_TOL};
use refraction::SCALE;

fn fx(v: f64) -> i128 {
    (v * 1e12).round() as i128
}

fn to_f64(v: i128) -> f64 {
    v as f64 / 1e12
}

fn uniform_air() -> Atmosphere {
    Atmosphere::from_layers(vec![
        AtmoLayer { h: fx(-100000.0), p: fx(101325.0), t: fx(288.15) },
        AtmoLayer { h: fx(100000.0), p: fx(101325.0), t: fx(288.15) },
    ])
    .unwrap()
}

/// A standard decreasing-density atmosphere: the US76 temperature layers
/// with barometric pressure, sampled onto a piecewise-linear table.
fn us76_temp_press(h: f64) -> (f64, f64) {
    let g = 9.80665;
    let rs = 287.053;
    // (base altitude, base temperature, lapse rate)
    let bases: [(f64, f64, f64); 7] = [
        (0.0, 288.15, -0.0065),
        (11000.0, 216.65, 0.0),
        (20000.0, 216.65, 0.001),
        (32000.0, 228.65, 0.0028),
        (47000.0, 270.65, 0.0),
        (51000.0, 270.65, -0.0028),
        (71000.0, 214.65, -0.002),
    ];
    if h <= 0.0 {
        let t = 288.15 - 0.0065 * h;
        let p = 101325.0 * (t / 288.15_f64).powf(-g / (rs * (-0.0065)));
        return (t, p);
    }
    let mut pb = 101325.0;
    for i in 0..bases.len() {
        let (hb, tb, lapse) = bases[i];
        let top = if i + 1 < bases.len() { bases[i + 1].0 } else { 86000.0 };
        if h <= top {
            if lapse == 0.0 {
                return (tb, pb * (-g * (h - hb) / (rs * tb)).exp());
            } else {
                let t = tb + lapse * (h - hb);
                return (t, pb * (t / tb).powf(-g / (rs * lapse)));
            }
        }
        if lapse == 0.0 {
            pb *= (-g * (top - hb) / (rs * tb)).exp();
        } else {
            let tt = tb + lapse * (top - hb);
            pb *= (tt / tb).powf(-g / (rs * lapse));
        }
    }
    (186.95, pb)
}

fn us76_air() -> Atmosphere {
    let mut layers: Vec<AtmoLayer> = Vec::new();
    let mut h = -1000.0;
    while h <= 86000.0 {
        let (t, p) = us76_temp_press(h);
        layers.push(AtmoLayer { h: fx(h), p: fx(p), t: fx(t) });
        h += if h < 15000.0 { 100.0 } else { 1000.0 };
    }
    Atmosphere::from_layers(layers).unwrap()
}

#[test]
fn flat_uniform_zero_angle_stays_level() {
    // flat shape, zero refractive gradient, launch angle 0, start 100 m:
    // the altitude ten kilometers out is exactly 100 m
    let env = Environment { shape: EarthShape::Flat, atmosphere: uniform_air() };
    let path = cast_ray(&env, fx(100.0), 0, false).unwrap();
    assert_eq!(path.h_at_dist(fx(10000.0)), fx(100.0));
    assert_eq!(path.slope_at_dist(fx(10000.0)), Some(0));
}

#[test]
fn flat_uniform_cast_is_straight() {
    // with dn = 0 the curvature vanishes and h(x) = h0 + x * tan(angle)
    let env = Environment { shape: EarthShape::Flat, atmosphere: uniform_air() };
    let tan = 17_455_064_928i128; // tan(1 degree) in fixed point
    let path = cast_ray(&env, fx(100.0), tan, false).unwrap();
    let expected: i128 = fx(100.0) + tan * 10_000;
    let got = path.h_at_dist(fx(10000.0));
    assert!((got - expected).abs() < fx(0.0001), "got {} expected {}", got, expected);
}

#[test]
fn spherical_uniform_cast_matches_chord() {
    // with dn = 0 the spherical ray is a straight chord: launched
    // horizontally from the surface, h(d) = R / cos(d / R) - R
    let r = 6378000.0;
    let env = Environment { shape: EarthShape::Spherical { radius: fx(r) }, atmosphere: uniform_air() };
    let path = cast_ray(&env, 0, 0, false).unwrap();
    let d = 100000.0;
    let expected = r / (d / r).cos() - r; // about 784.03 m
    let got = to_f64(path.h_at_dist(fx(d)));
    assert!((got - expected).abs() < 5.0, "got {} expected {}", got, expected);
}

#[test]
fn target_cast_round_trip() {
    // the path found by the shooting solver passes through the target
    // within the bisection tolerance
    let env = Environment { shape: EarthShape::Flat, atmosphere: uniform_air() };
    let tgt_h = fx(500.0);
    let tgt_dist = fx(20000.0);
    let path = cast_ray_target(&env, fx(100.0), tgt_h, tgt_dist, false).unwrap();
    let got = path.h_at_dist(tgt_dist);
    assert!((got - tgt_h).abs() <= DIST_TOL, "got {} target {}", got, tgt_h);
}

#[test]
fn horizon_finding_is_idempotent() {
    let env = Environment { shape: EarthShape::Spherical { radius: fx(6378000.0) }, atmosphere: us76_air() };
    let path = cast_ray(&env, 0, 0, false).unwrap();
    let d1 = find_dist_for_h(&path, fx(1.0));
    let d2 = find_dist_for_h(&path, fx(1.0));
    assert_eq!(d1, d2);
}

#[test]
fn horizon_distance_scenario() {
    // start 1 m above a spherical planet of radius 6378 km under the
    // standard atmosphere: the horizon lies a few kilometers out, somewhat
    // beyond the geometric sqrt(2 R h) of about 3.57 km because refraction
    // bends the ray around the planet
    let env = Environment { shape: EarthShape::Spherical { radius: fx(6378000.0) }, atmosphere: us76_air() };
    let params = Params {
        ray: RayData { start_h: fx(1.0), dir: RayDir::Horizon },
        env,
        straight: false,
        output: vec![Output::HorizonDistance],
        verbose: false,
    };
    let path = create_path(&params).unwrap();
    let d = to_f64(find_dist_for_h(&path, fx(1.0)));
    assert!(d > 3570.0, "horizon at {} m is not beyond the geometric horizon", d);
    assert!(d < 6500.0, "horizon at {} m is too far out", d);
}

#[test]
fn higher_launch_angle_flies_higher() {
    // monotonicity in the launch angle at a fixed distance, flat shape
    let env = Environment { shape: EarthShape::Flat, atmosphere: us76_air() };
    let low = cast_ray(&env, fx(100.0), fx(0.001), false).unwrap();
    let high = cast_ray(&env, fx(100.0), fx(0.002), false).unwrap();
    let d = fx(50000.0);
    assert!(high.h_at_dist(d) > low.h_at_dist(d));
}

#[test]
fn higher_launch_angle_flies_higher_spherical() {
    let env = Environment { shape: EarthShape::Spherical { radius: fx(6378000.0) }, atmosphere: us76_air() };
    let low = cast_ray(&env, fx(100.0), fx(0.001), false).unwrap();
    let high = cast_ray(&env, fx(100.0), fx(0.002), false).unwrap();
    let d = fx(50000.0);
    assert!(high.h_at_dist(d) > low.h_at_dist(d));
}

#[test]
fn straight_cast_ignores_refraction() {
    // a straight-line cast under a refracting atmosphere behaves as the
    // free cast does in uniform air: exactly level at zero launch angle
    let env = Environment { shape: EarthShape::Flat, atmosphere: us76_air() };
    let path = cast_ray(&env, fx(100.0), 0, true).unwrap();
    assert_eq!(path.h_at_dist(fx(10000.0)), fx(100.0));
}

#[test]
fn target_cast_without_bracket_fails() {
    // a target far above anything the bracketed launch angles can reach
    let env = Environment { shape: EarthShape::Flat, atmosphere: uniform_air() };
    let r = cast_ray_target(&env, 0, fx(50000000.0), fx(10000.0), false);
    assert!(matches!(r, Err(PathError::NumericalNonConvergence)));
}

#[test]
fn create_path_dispatches_on_direction() {
    let env = Environment { shape: EarthShape::Flat, atmosphere: uniform_air() };
    let params = Params {
        ray: RayData { start_h: fx(100.0), dir: RayDir::Angle(0) },
        env,
        straight: false,
        output: vec![Output::HAtDist(fx(10000.0)), Output::Angle],
        verbose: false,
    };
    let path = create_path(&params).unwrap();
    assert_eq!(path.h_at_dist(fx(10000.0)), fx(100.0));
    let env2 = Environment { shape: EarthShape::Flat, atmosphere: uniform_air() };
    let params2 = Params {
        ray: RayData { start_h: fx(100.0), dir: RayDir::Target { h: fx(300.0), dist: fx(10000.0) } },
        env: env2,
        straight: false,
        output: vec![],
        verbose: false,
    };
    let path2 = create_path(&params2).unwrap();
    assert!((path2.h_at_dist(fx(10000.0)) - fx(300.0)).abs() <= DIST_TOL);
}

#[test]
fn spherical_target_round_trip() {
    // in uniform air the altitude responds smoothly to the launch tangent,
    // so the shooting search reaches the full bisection tolerance; a
    // piecewise-linear lapse-rate table limits it to about a tenth of a
    // millimeter instead, through the table's derivative jumps
    let env = Environment {
        shape: EarthShape::Spherical { radius: fx(6378000.0) },
        atmosphere: uniform_air(),
    };
    let tgt_h = fx(200.0);
    let tgt_dist = fx(20000.0);
    let path = cast_ray_target(&env, fx(2.0), tgt_h, tgt_dist, false).unwrap();
    let got = path.h_at_dist(tgt_dist);
    assert!((got - tgt_h).abs() <= DIST_TOL, "got {} target {}", got, tgt_h);
}




#[test]
fn astronomical_deflection_scenario() {
    // a ray launched five degrees above the horizon, followed to the
    // 200 km atmospheric boundary: light from a celestial object at that
    // apparent altitude is deflected by a small positive angle
    let shape = EarthShape::Spherical { radius: fx(6378000.0) };
    let env = Environment { shape, atmosphere: us76_air() };
    let tan5 = fx((5.0f64).to_radians().tan());
    let path = cast_ray(&env, fx(1.0), tan5, false).unwrap();
    let d200 = find_dist_for_h(&path, fx(200000.0));
    assert!(to_f64(d200) > 1.0e6 && to_f64(d200) < 4.0e6, "boundary at {} m", to_f64(d200));
    let a0 = to_f64(path.slope_at_dist(0).unwrap()).atan();
    let a1 = to_f64(path.slope_at_dist(d200).unwrap()).atan();
    let defl = astronomical_deflection(fx(a0), fx(a1), d200, &shape).unwrap();
    let defl_deg = to_f64(defl).to_degrees();
    assert!(defl_deg > 0.0 && defl_deg < 0.5, "deflection {} degrees", defl_deg);
}
