//! Run parameters, as the surrounding command-line layer hands them to the
//! core: the ray definition, the environment, the straight-line flag, and
//! the requested outputs. All distances, altitudes, slopes and angles are
//! fixed point (`10^-12` units).

use vstd::prelude::*;
use crate::atmosphere::table_uniform;
use crate::integrator::{EarthShape, PathError, HGT_LIM};
use crate::path::{
    cast_ray, cast_ray_target, env_wf, h_at_dist_spec, is_cast, path_wf, Environment, Path,
    DIST_TOL, MAX_DIST, START_H_LIM,
};

verus! {

/// Ray direction description.
pub enum RayDir {
    /// tangent of the launch angle above the horizon
    Angle(i128),
    /// hit a given altitude at the given distance
    Target { h: i128, dist: i128 },
    /// special value for finding the horizon
    Horizon,
}

/// Definition of a ray.
pub struct RayData {
    /// starting altitude
    pub start_h: i128,
    /// direction of propagation
    pub dir: RayDir,
}

/// What info to output.
pub enum Output {
    /// altitude at a given distance
    HAtDist(i128),
    /// output starting slope of the ray
    Angle,
    /// output the angle to the horizon
    HorizonAngle,
    /// output the distance to the horizon
    HorizonDistance,
    /// output the angle of deflection for rays from celestial objects
    Astronomical,
}

/// Everything one run needs.
pub struct Params {
    pub ray: RayData,
    pub env: Environment,
    pub straight: bool,
    pub output: Vec<Output>,
    pub verbose: bool,
}

/// Parameters the core accepts: a valid environment, a starting altitude in
/// range, and a target point in range where one is given.
pub open spec fn params_wf(p: Params) -> bool {
    &&& env_wf(p.env)
    &&& -START_H_LIM <= p.ray.start_h <= START_H_LIM
    &&& (p.ray.dir matches RayDir::Target { h, dist } ==> -HGT_LIM <= h <= HGT_LIM && 0 <= dist
        <= MAX_DIST)
}

/// Builds the path the parameters describe: a free cast at the given launch
/// slope, a target-seeking cast, or — for the horizon outputs — a
/// horizontal cast from altitude zero whose crossing back through the
/// observer's altitude the callers then search for. The result is the
/// corresponding cast of the given ray data; a level flat cast through an
/// altitude-independent (or straight-line) medium always succeeds.
pub fn create_path(params: &Params) -> (r: Result<Path, PathError>)
    requires
        params_wf(*params),
    ensures
        r matches Ok(p) ==> p.shape == params.env.shape && path_wf(p.shape, p.samples@),
        r matches Ok(p) ==> (params.ray.dir matches RayDir::Angle(tangent) ==> is_cast(
            params.env,
            params.ray.start_h,
            tangent,
            params.straight,
            p,
        )),
        r matches Ok(p) ==> (params.ray.dir matches RayDir::Horizon ==> is_cast(
            params.env,
            0,
            0,
            params.straight,
            p,
        )),
        r matches Ok(p) ==> (params.ray.dir matches RayDir::Target { h, dist } ==> -DIST_TOL
            <= h_at_dist_spec(p.shape, p.samples@, dist) - h <= DIST_TOL && p.samples@[0].x == 0
            && p.samples@[0].h == params.ray.start_h && (exists|t: i128| #[trigger] is_cast(
            params.env,
            params.ray.start_h,
            t,
            params.straight,
            p,
        ))),
        (params.ray.dir matches RayDir::Angle(tangent) && tangent == 0 && params.env.shape
            == EarthShape::Flat && (params.straight || table_uniform(params.env.atmosphere@)))
            ==> r is Ok,
        (params.ray.dir matches RayDir::Horizon && params.env.shape == EarthShape::Flat && (
        params.straight || table_uniform(params.env.atmosphere@))) ==> r is Ok,
{
    match params.ray.dir {
        RayDir::Angle(tangent) => cast_ray(
            &params.env,
            params.ray.start_h,
            tangent,
            params.straight,
        ),
        RayDir::Target { h, dist } => cast_ray_target(
            &params.env,
            params.ray.start_h,
            h,
            dist,
            params.straight,
        ),
        RayDir::Horizon => cast_ray(&params.env, 0, 0, params.straight),
    }
}

} // verus!
