//! The Lorenz vector field and its fixed-step forward Euler integrator.

use vstd::prelude::*;
use crate::fx;
use crate::vec3::{Vec3, vadd, vscale, spec_vadd, spec_vscale};
use crate::fx::{fx_mul, fx_sub};

verus! {

/// The three coefficients of the vector field. They are externally settable
/// and carry no invariant: pathological values are permitted and merely
/// saturate the arithmetic.
#[derive(Clone, Copy, Debug, PartialEq, Eq, Structural)]
pub struct SimulationParameters {
    pub sigma: i64,
    pub rho: i64,
    pub beta: i64,
}

/// The instantaneous rate of change at `s`:
/// `(sigma * (y - x), x * (rho - z) - y, x * y - beta * z)`,
/// every operation saturating fixed-point.
pub open spec fn spec_lorenz(s: Vec3, p: SimulationParameters) -> Vec3 {
    Vec3 {
        x: fx::spec_mul(p.sigma as int, fx::spec_sub(s.y as int, s.x as int)) as i64,
        y: fx::spec_sub(
            fx::spec_mul(s.x as int, fx::spec_sub(p.rho as int, s.z as int)),
            s.y as int,
        ) as i64,
        z: fx::spec_sub(
            fx::spec_mul(s.x as int, s.y as int),
            fx::spec_mul(p.beta as int, s.z as int),
        ) as i64,
    }
}

/// One forward Euler update: `s + dt * lorenz(s, p)`.
pub open spec fn spec_step(s: Vec3, p: SimulationParameters, dt: int) -> Vec3 {
    spec_vadd(s, spec_vscale(dt, spec_lorenz(s, p)))
}

/// Evaluate the vector field at `state`.
pub fn lorenz(state: Vec3, params: SimulationParameters) -> (r: Vec3)
    ensures
        r == spec_lorenz(state, params),
{
    Vec3 {
        x: fx_mul(params.sigma, fx_sub(state.y, state.x)),
        y: fx_sub(fx_mul(state.x, fx_sub(params.rho, state.z)), state.y),
        z: fx_sub(fx_mul(state.x, state.y), fx_mul(params.beta, state.z)),
    }
}

/// Advance one state by one fixed time step `dt`.
pub fn step(state: Vec3, params: SimulationParameters, dt: i64) -> (r: Vec3)
    ensures
        r == spec_step(state, params, dt as int),
{
    vadd(state, vscale(dt, lorenz(state, params)))
}

/// The integrator is a pure function of its arguments: equal state,
/// parameters and time step always give the equal next state. There is no
/// hidden state to diverge on.
pub proof fn lemma_step_deterministic(
    s1: Vec3,
    s2: Vec3,
    p1: SimulationParameters,
    p2: SimulationParameters,
    dt1: int,
    dt2: int,
)
    requires
        s1 == s2,
        p1 == p2,
        dt1 == dt2,
    ensures
        spec_step(s1, p1, dt1) == spec_step(s2, p2, dt2),
{
}

} // verus!
