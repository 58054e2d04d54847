//! The world state: five bounded scalars and a decaying sparkle impulse.
//!
//! Each bounded scalar lives in the unit interval `[0, UNIT]` (millionths)
//! and is re-clamped by every mutation; the sparkle impulse is non-negative
//! and unbounded above. A tick drifts every bounded scalar by a random
//! direction and then pulls it back toward the midpoint.

use vstd::prelude::*;

use crate::fixed::{
    clamp_unit, clamped_unit, mul_div, DT_LIMIT, HALF_UNIT, UNIT,
};

verus! {

/// Random per-scalar drift directions for one tick: `true` drifts the
/// scalar up, `false` down.
#[derive(Debug, Clone, Copy, PartialEq, Eq, Structural)]
pub struct DriftDirections {
    pub density_up: bool,
    pub rhythm_up: bool,
    pub tension_up: bool,
    pub energy_up: bool,
    pub warmth_up: bool,
}

/// The current world state; mutated only through its clamping methods.
#[derive(Debug)]
pub struct WorldState {
    pub density: u64,
    pub rhythm: u64,
    pub tension: u64,
    pub energy: u64,
    pub warmth: u64,
    pub sparkle_impulse: u64,
}

/// An immutable copy of the world state at a point in time, safe to hand
/// across thread boundaries.
#[derive(Debug, Clone, Copy, PartialEq, Eq, Structural)]
pub struct WorldSnapshot {
    pub density: u64,
    pub rhythm: u64,
    pub tension: u64,
    pub energy: u64,
    pub warmth: u64,
    pub sparkle_impulse: u64,
}

/// One bounded scalar after a tick: a directed random step of `dt / 5`
/// millionths, clamped, then a mean-reversion pull toward the midpoint of
/// `dt * distance / 5_000_000` millionths, clamped again.
pub open spec fn drifted_scalar(v: int, dt: int, up: bool) -> int {
    let moved = if up {
        clamped_unit(v + dt / 5)
    } else {
        clamped_unit(v - dt / 5)
    };
    if moved >= HALF_UNIT {
        clamped_unit(moved - (dt * (moved - HALF_UNIT)) / 5_000_000)
    } else {
        clamped_unit(moved + (dt * (HALF_UNIT - moved)) / 5_000_000)
    }
}

/// The sparkle impulse after a tick: shrunk by `2 * dt` millionths,
/// floored at zero.
pub open spec fn decayed_impulse(impulse: int, dt: int) -> int {
    if impulse - 2 * dt >= 0 {
        impulse - 2 * dt
    } else {
        0
    }
}

impl WorldState {
    /// The five bounded scalars sit inside the unit interval.
    pub open spec fn wf(&self) -> bool {
        &&& self.density <= UNIT
        &&& self.rhythm <= UNIT
        &&& self.tension <= UNIT
        &&& self.energy <= UNIT
        &&& self.warmth <= UNIT
    }

    /// Initializes the world state with default values.
    pub fn new() -> (r: WorldState)
        ensures
            r.wf(),
            r.density == HALF_UNIT,
            r.rhythm == HALF_UNIT,
            r.tension == HALF_UNIT,
            r.energy == HALF_UNIT,
            r.warmth == HALF_UNIT,
            r.sparkle_impulse == 0,
    {
        WorldState {
            density: HALF_UNIT,
            rhythm: HALF_UNIT,
            tension: HALF_UNIT,
            energy: HALF_UNIT,
            warmth: HALF_UNIT,
            sparkle_impulse: 0,
        }
    }

    /// Drifts every bounded scalar one tick in the given directions and
    /// decays the sparkle impulse.
    pub fn drift(&mut self, dt: u64, dirs: DriftDirections)
        requires
            old(self).wf(),
            dt <= DT_LIMIT,
        ensures
            final(self).wf(),
            final(self).density == drifted_scalar(old(self).density as int, dt as int, dirs.density_up),
            final(self).rhythm == drifted_scalar(old(self).rhythm as int, dt as int, dirs.rhythm_up),
            final(self).tension == drifted_scalar(old(self).tension as int, dt as int, dirs.tension_up),
            final(self).energy == drifted_scalar(old(self).energy as int, dt as int, dirs.energy_up),
            final(self).warmth == drifted_scalar(old(self).warmth as int, dt as int, dirs.warmth_up),
            final(self).sparkle_impulse == decayed_impulse(old(self).sparkle_impulse as int, dt as int),
    {
        self.density = drift_scalar(self.density, dt, dirs.density_up);
        self.rhythm = drift_scalar(self.rhythm, dt, dirs.rhythm_up);
        self.tension = drift_scalar(self.tension, dt, dirs.tension_up);
        self.energy = drift_scalar(self.energy, dt, dirs.energy_up);
        self.warmth = drift_scalar(self.warmth, dt, dirs.warmth_up);

        let fade: u64 = 2 * dt;
        if fade >= self.sparkle_impulse {
            self.sparkle_impulse = 0;
        } else {
            self.sparkle_impulse = self.sparkle_impulse - fade;
        }
    }

    /// Current density, in millionths.
    pub fn density(&self) -> (r: u64)
        ensures
            r == self.density,
    {
        self.density
    }

    /// Current rhythm, in millionths.
    pub fn rhythm(&self) -> (r: u64)
        ensures
            r == self.rhythm,
    {
        self.rhythm
    }

    /// Current tension, in millionths.
    pub fn tension(&self) -> (r: u64)
        ensures
            r == self.tension,
    {
        self.tension
    }

    /// Current energy, in millionths.
    pub fn energy(&self) -> (r: u64)
        ensures
            r == self.energy,
    {
        self.energy
    }

    /// Current warmth, in millionths.
    pub fn warmth(&self) -> (r: u64)
        ensures
            r == self.warmth,
    {
        self.warmth
    }

    /// Current sparkle impulse, in millionths; non-negative, unbounded.
    pub fn sparkle_impulse(&self) -> (r: u64)
        ensures
            r == self.sparkle_impulse,
    {
        self.sparkle_impulse
    }

    /// Sets the density, clamped to the unit interval.
    pub fn set_density(&mut self, value: u64)
        ensures
            *final(self) == (WorldState { density: clamped_unit(value as int) as u64, ..*old(self) }),
    {
        self.density = clamp_unit(value);
    }

    /// Sets the rhythm, clamped to the unit interval.
    pub fn set_rhythm(&mut self, value: u64)
        ensures
            *final(self) == (WorldState { rhythm: clamped_unit(value as int) as u64, ..*old(self) }),
    {
        self.rhythm = clamp_unit(value);
    }

    /// Sets the tension, clamped to the unit interval.
    pub fn set_tension(&mut self, value: u64)
        ensures
            *final(self) == (WorldState { tension: clamped_unit(value as int) as u64, ..*old(self) }),
    {
        self.tension = clamp_unit(value);
    }

    /// Sets the energy, clamped to the unit interval.
    pub fn set_energy(&mut self, value: u64)
        ensures
            *final(self) == (WorldState { energy: clamped_unit(value as int) as u64, ..*old(self) }),
    {
        self.energy = clamp_unit(value);
    }

    /// Sets the warmth, clamped to the unit interval.
    pub fn set_warmth(&mut self, value: u64)
        ensures
            *final(self) == (WorldState { warmth: clamped_unit(value as int) as u64, ..*old(self) }),
    {
        self.warmth = clamp_unit(value);
    }

    /// Sets the sparkle impulse; values above one unit are allowed, as an
    /// impulse is an excitation, not a level.
    pub fn set_sparkle_impulse(&mut self, value: u64)
        ensures
            *final(self) == (WorldState { sparkle_impulse: value, ..*old(self) }),
    {
        self.sparkle_impulse = value;
    }
}

impl Default for WorldState {
    /// The neutral state: every bounded scalar at the midpoint, no
    /// sparkle impulse.
    fn default() -> (r: WorldState)
        ensures
            r.wf(),
            r.density == HALF_UNIT,
            r.rhythm == HALF_UNIT,
            r.tension == HALF_UNIT,
            r.energy == HALF_UNIT,
            r.warmth == HALF_UNIT,
            r.sparkle_impulse == 0,
    {
        WorldState::new()
    }
}

/// One bounded scalar's tick update: directed step, then mean reversion.
fn drift_scalar(v: u64, dt: u64, up: bool) -> (r: u64)
    requires
        v <= UNIT,
        dt <= DT_LIMIT,
    ensures
        r == drifted_scalar(v as int, dt as int, up),
        r <= UNIT,
{
    let step: u64 = dt / 5;
    let moved: u64 = if up {
        clamp_unit(v + step)
    } else {
        if step >= v {
            0
        } else {
            v - step
        }
    };
    if moved >= HALF_UNIT {
        let pull: u64 = mul_div(dt, moved - HALF_UNIT, 5_000_000);
        if pull >= moved {
            0
        } else {
            moved - pull
        }
    } else {
        let pull: u64 = mul_div(dt, HALF_UNIT - moved, 5_000_000);
        clamp_unit(moved + pull)
    }
}

impl WorldSnapshot {
    /// The five bounded scalars sit inside the unit interval.
    pub open spec fn wf(&self) -> bool {
        &&& self.density <= UNIT
        &&& self.rhythm <= UNIT
        &&& self.tension <= UNIT
        &&& self.energy <= UNIT
        &&& self.warmth <= UNIT
    }

    /// Copies the current world state into a snapshot.
    pub fn from_world_state(world_state: &WorldState) -> (r: WorldSnapshot)
        ensures
            r.density == world_state.density,
            r.rhythm == world_state.rhythm,
            r.tension == world_state.tension,
            r.energy == world_state.energy,
            r.warmth == world_state.warmth,
            r.sparkle_impulse == world_state.sparkle_impulse,
            world_state.wf() ==> r.wf(),
    {
        WorldSnapshot {
            density: world_state.density,
            rhythm: world_state.rhythm,
            tension: world_state.tension,
            energy: world_state.energy,
            warmth: world_state.warmth,
            sparkle_impulse: world_state.sparkle_impulse,
        }
    }

    /// Snapshot density, in millionths.
    pub fn density(&self) -> (r: u64)
        ensures
            r == self.density,
    {
        self.density
    }

    /// Snapshot rhythm, in millionths.
    pub fn rhythm(&self) -> (r: u64)
        ensures
            r == self.rhythm,
    {
        self.rhythm
    }

    /// Snapshot tension, in millionths.
    pub fn tension(&self) -> (r: u64)
        ensures
            r == self.tension,
    {
        self.tension
    }

    /// Snapshot energy, in millionths.
    pub fn energy(&self) -> (r: u64)
        ensures
            r == self.energy,
    {
        self.energy
    }

    /// Snapshot warmth, in millionths.
    pub fn warmth(&self) -> (r: u64)
        ensures
            r == self.warmth,
    {
        self.warmth
    }

    /// Snapshot sparkle impulse, in millionths.
    pub fn sparkle_impulse(&self) -> (r: u64)
        ensures
            r == self.sparkle_impulse,
    {
        self.sparkle_impulse
    }
}

} // verus!
