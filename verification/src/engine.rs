//! The engine that folds events into the world state.
//!
//! Trigger effects are deterministic and stated exactly. A tick consumes
//! randomness — one direction bit per bounded scalar and one uniform
//! sample — so its contract states the exact transition for whatever
//! values were drawn, and `tick_with` exposes that transition
//! deterministically for replay and tests.

use vstd::prelude::*;

use crate::events::{Event, PerformAction, TriggerKind};
use crate::fixed::{
    add_clamped, clamped_unit, mul_div, tenth, tenth_of, DELTA_LIMIT, DT_LIMIT, HALF_UNIT, UNIT,
};
use crate::random::{random_direction, random_unit_sample};
use crate::world::{
    decayed_impulse, drifted_scalar, DriftDirections, WorldSnapshot, WorldState,
};

verus! {

/// The world engine: the current state plus the sparkle phase
/// accumulator.
#[derive(Debug)]
pub struct WorldEngine {
    pub state: WorldState,
    pub sparkle_phase: u64,
}

/// The state after a pulse: energy rises by the intensity, tension by a
/// tenth of it, both re-clamped.
pub open spec fn pulsed(s: WorldState, intensity: int) -> WorldState {
    WorldState {
        energy: clamped_unit(s.energy + intensity) as u64,
        tension: clamped_unit(s.tension + tenth_of(intensity)) as u64,
        ..s
    }
}

/// The state after a stir: density rises by the intensity, tension by a
/// tenth of it, both re-clamped.
pub open spec fn stirred(s: WorldState, intensity: int) -> WorldState {
    WorldState {
        density: clamped_unit(s.density + intensity) as u64,
        tension: clamped_unit(s.tension + tenth_of(intensity)) as u64,
        ..s
    }
}

/// The state after a calm: tension falls by the intensity, density by a
/// tenth of it, both re-clamped.
pub open spec fn calmed(s: WorldState, intensity: int) -> WorldState {
    WorldState {
        tension: clamped_unit(s.tension - intensity) as u64,
        density: clamped_unit(s.density - tenth_of(intensity)) as u64,
        ..s
    }
}

/// The state after a heat: warmth rises by the intensity, energy by a
/// tenth of it, both re-clamped.
pub open spec fn heated(s: WorldState, intensity: int) -> WorldState {
    WorldState {
        warmth: clamped_unit(s.warmth + intensity) as u64,
        energy: clamped_unit(s.energy + tenth_of(intensity)) as u64,
        ..s
    }
}

/// The state after a tense: tension rises by the intensity, re-clamped.
pub open spec fn tensed(s: WorldState, intensity: int) -> WorldState {
    WorldState { tension: clamped_unit(s.tension + intensity) as u64, ..s }
}

/// The effect of one trigger kind on the state.
pub open spec fn triggered(kind: TriggerKind, s: WorldState, intensity: int) -> WorldState {
    match kind {
        TriggerKind::Pulse => pulsed(s, intensity),
        TriggerKind::Stir => stirred(s, intensity),
        TriggerKind::Calm => calmed(s, intensity),
        TriggerKind::Heat => heated(s, intensity),
        TriggerKind::Tense => tensed(s, intensity),
    }
}

/// The effect of one performed action on the state: the five trigger
/// mirrors act as the triggers do; scene changes and freezes are
/// reserved and leave the state alone.
pub open spec fn performed(s: WorldState, action: PerformAction) -> WorldState {
    match action {
        PerformAction::Pulse { intensity } => pulsed(s, intensity as int),
        PerformAction::Stir { intensity } => stirred(s, intensity as int),
        PerformAction::Calm { intensity } => calmed(s, intensity as int),
        PerformAction::Heat { intensity } => heated(s, intensity as int),
        PerformAction::Tense { intensity } => tensed(s, intensity as int),
        PerformAction::Scene { .. } => s,
        PerformAction::Freeze { .. } => s,
    }
}

/// The state after one tick's drift: every bounded scalar takes its
/// directed step and mean reversion, and the sparkle impulse decays.
pub open spec fn drifted_state(s: WorldState, dt: u64, dirs: DriftDirections) -> WorldState {
    WorldState {
        density: drifted_scalar(s.density as int, dt as int, dirs.density_up) as u64,
        rhythm: drifted_scalar(s.rhythm as int, dt as int, dirs.rhythm_up) as u64,
        tension: drifted_scalar(s.tension as int, dt as int, dirs.tension_up) as u64,
        energy: drifted_scalar(s.energy as int, dt as int, dirs.energy_up) as u64,
        warmth: drifted_scalar(s.warmth as int, dt as int, dirs.warmth_up) as u64,
        sparkle_impulse: decayed_impulse(s.sparkle_impulse as int, dt as int) as u64,
    }
}

/// The sparkle pass of one tick: the phase accumulator advances with the
/// rhythm (saturating far beyond any realistic run), and if the uniform
/// draw falls below the density-scaled threshold a fresh impulse of
/// `HALF_UNIT + energy / 2` is set.
pub open spec fn sparkled(e: WorldEngine, dt: u64, draw: u64) -> WorldEngine {
    let advance = (dt * (2 * e.state.rhythm + HALF_UNIT)) / (UNIT as int);
    let phase = if e.sparkle_phase + advance > u64::MAX {
        u64::MAX as int
    } else {
        e.sparkle_phase + advance
    };
    let threshold = (3 * dt * (2 * e.state.density + HALF_UNIT)) / 10_000_000;
    let impulse = if draw < threshold {
        HALF_UNIT + e.state.energy / 2
    } else {
        e.state.sparkle_impulse as int
    };
    WorldEngine {
        state: WorldState { sparkle_impulse: impulse as u64, ..e.state },
        sparkle_phase: phase as u64,
    }
}

/// The full effect of one tick: drift, then the sparkle pass on the
/// drifted state.
pub open spec fn ticked(e: WorldEngine, dt: u64, dirs: DriftDirections, draw: u64) -> WorldEngine {
    sparkled(
        WorldEngine { state: drifted_state(e.state, dt, dirs), sparkle_phase: e.sparkle_phase },
        dt,
        draw,
    )
}

/// The transition of one event, with the tick's random choices made
/// explicit.
pub open spec fn stepped(
    e: WorldEngine,
    event: Event,
    dirs: DriftDirections,
    draw: u64,
) -> WorldEngine {
    match event {
        Event::Tick { dt } => ticked(e, dt, dirs, draw),
        Event::Trigger { kind, intensity } => WorldEngine {
            state: triggered(kind, e.state, intensity as int),
            ..e
        },
        Event::Perform(action) => WorldEngine { state: performed(e.state, action), ..e },
    }
}

impl WorldEngine {
    /// The engine's state is well formed.
    pub open spec fn wf(&self) -> bool {
        self.state.wf()
    }

    /// Initializes the world engine with a default state.
    pub fn new() -> (r: WorldEngine)
        ensures
            r.wf(),
            r.state == (WorldState {
                density: HALF_UNIT,
                rhythm: HALF_UNIT,
                tension: HALF_UNIT,
                energy: HALF_UNIT,
                warmth: HALF_UNIT,
                sparkle_impulse: 0u64,
            }),
            r.sparkle_phase == 0,
    {
        WorldEngine { state: WorldState::new(), sparkle_phase: 0 }
    }

    /// Applies an event. A tick draws its randomness from the process
    /// generator, so its outcome is pinned only up to the drawn choices;
    /// `tick_with` is the deterministic form.
    pub fn apply(&mut self, event: Event)
        requires
            old(self).wf(),
            event.wf(),
        ensures
            final(self).wf(),
            (match event {
                Event::Tick { dt } => exists|dirs: DriftDirections, draw: u64|
                    draw < UNIT && *final(self) == ticked(*old(self), dt, dirs, draw),
                Event::Trigger { kind, intensity } => *final(self) == (WorldEngine {
                    state: triggered(kind, old(self).state, intensity as int),
                    ..*old(self)
                }),
                Event::Perform(action) => *final(self) == (WorldEngine {
                    state: performed(old(self).state, action),
                    ..*old(self)
                }),
            }),
    {
        match event {
            Event::Tick { dt } => {
                let dirs = DriftDirections {
                    density_up: random_direction(),
                    rhythm_up: random_direction(),
                    tension_up: random_direction(),
                    energy_up: random_direction(),
                    warmth_up: random_direction(),
                };
                let draw = random_unit_sample();
                let ghost prior = *self;
                self.tick_with(dt, dirs, draw);
                proof {
                    assert(draw < UNIT && *self == ticked(prior, dt, dirs, draw));
                }
            },
            Event::Trigger { kind, intensity } => {
                match kind {
                    TriggerKind::Pulse => self.apply_pulse(intensity),
                    TriggerKind::Stir => self.apply_stir(intensity),
                    TriggerKind::Calm => self.apply_calm(intensity),
                    TriggerKind::Heat => self.apply_heat(intensity),
                    TriggerKind::Tense => self.apply_tense(intensity),
                }
            },
            Event::Perform(action) => {
                match action {
                    PerformAction::Pulse { intensity } => self.apply_pulse(intensity),
                    PerformAction::Stir { intensity } => self.apply_stir(intensity),
                    PerformAction::Calm { intensity } => self.apply_calm(intensity),
                    PerformAction::Heat { intensity } => self.apply_heat(intensity),
                    PerformAction::Tense { intensity } => self.apply_tense(intensity),
                    PerformAction::Scene { name } => self.apply_scene(name),
                    PerformAction::Freeze { micros: _ } => self.apply_freeze(),
                }
            },
        }
    }

    /// Applies one tick with explicit random choices: the drift
    /// directions and the uniform unit sample. Deterministic, for replay
    /// and seeded tests.
    pub fn tick_with(&mut self, dt: u64, dirs: DriftDirections, draw: u64)
        requires
            old(self).wf(),
            dt <= DT_LIMIT,
        ensures
            final(self).wf(),
            *final(self) == ticked(*old(self), dt, dirs, draw),
    {
        self.state.drift(dt, dirs);
        self.update_sparkles(dt, draw);
    }

    /// Apply pulse action: increases energy and slightly increases tension.
    fn apply_pulse(&mut self, intensity: i64)
        requires
            old(self).wf(),
            -DELTA_LIMIT <= intensity <= DELTA_LIMIT,
        ensures
            final(self).wf(),
            *final(self) == (WorldEngine {
                state: pulsed(old(self).state, intensity as int),
                ..*old(self)
            }),
    {
        self.state.set_energy(add_clamped(self.state.energy(), intensity));
        self.state.set_tension(add_clamped(self.state.tension(), tenth(intensity)));
    }

    /// Apply stir action: increases density and slightly increases tension.
    fn apply_stir(&mut self, intensity: i64)
        requires
            old(self).wf(),
            -DELTA_LIMIT <= intensity <= DELTA_LIMIT,
        ensures
            final(self).wf(),
            *final(self) == (WorldEngine {
                state: stirred(old(self).state, intensity as int),
                ..*old(self)
            }),
    {
        self.state.set_density(add_clamped(self.state.density(), intensity));
        self.state.set_tension(add_clamped(self.state.tension(), tenth(intensity)));
    }

    /// Apply calm action: decreases tension and slightly decreases density.
    fn apply_calm(&mut self, intensity: i64)
        requires
            old(self).wf(),
            -DELTA_LIMIT <= intensity <= DELTA_LIMIT,
        ensures
            final(self).wf(),
            *final(self) == (WorldEngine {
                state: calmed(old(self).state, intensity as int),
                ..*old(self)
            }),
    {
        self.state.set_tension(add_clamped(self.state.tension(), -intensity));
        self.state.set_density(add_clamped(self.state.density(), -tenth(intensity)));
    }

    /// Apply heat action: increases warmth and slightly increases energy.
    fn apply_heat(&mut self, intensity: i64)
        requires
            old(self).wf(),
            -DELTA_LIMIT <= intensity <= DELTA_LIMIT,
        ensures
            final(self).wf(),
            *final(self) == (WorldEngine {
                state: heated(old(self).state, intensity as int),
                ..*old(self)
            }),
    {
        self.state.set_warmth(add_clamped(self.state.warmth(), intensity));
        self.state.set_energy(add_clamped(self.state.energy(), tenth(intensity)));
    }

    /// Apply tense action: directly increases tension.
    fn apply_tense(&mut self, intensity: i64)
        requires
            old(self).wf(),
            -DELTA_LIMIT <= intensity <= DELTA_LIMIT,
        ensures
            final(self).wf(),
            *final(self) == (WorldEngine {
                state: tensed(old(self).state, intensity as int),
                ..*old(self)
            }),
    {
        self.state.set_tension(add_clamped(self.state.tension(), intensity));
    }

    /// Apply scene change (reserved for future use; no state effect).
    fn apply_scene(&mut self, name: String)
        ensures
            *final(self) == *old(self),
    {
        let _ = name;
    }

    /// Apply freeze (reserved for future use; no state effect).
    fn apply_freeze(&mut self)
        ensures
            *final(self) == *old(self),
    {
    }

    /// Update sparkle generation: advance the phase with the rhythm and,
    /// if the uniform draw falls under the density-scaled threshold, set
    /// a fresh energy-scaled impulse.
    fn update_sparkles(&mut self, dt: u64, draw: u64)
        requires
            old(self).wf(),
            dt <= DT_LIMIT,
        ensures
            final(self).wf(),
            *final(self) == sparkled(*old(self), dt, draw),
    {
        let rhythm_factor: u64 = 2 * self.state.rhythm() + HALF_UNIT;
        let advance: u64 = mul_div(dt, rhythm_factor, UNIT);
        if advance > u64::MAX - self.sparkle_phase {
            self.sparkle_phase = u64::MAX;
        } else {
            self.sparkle_phase = self.sparkle_phase + advance;
        }

        let density_factor: u64 = 2 * self.state.density() + HALF_UNIT;
        let threshold: u64 = mul_div(3 * dt, density_factor, 10_000_000);
        if draw < threshold {
            let strength: u64 = HALF_UNIT + self.state.energy() / 2;
            self.state.set_sparkle_impulse(strength);
        }
    }

    /// Retrieves the current world state snapshot.
    pub fn get_snapshot(&self) -> (r: WorldSnapshot)
        ensures
            r.density == self.state.density,
            r.rhythm == self.state.rhythm,
            r.tension == self.state.tension,
            r.energy == self.state.energy,
            r.warmth == self.state.warmth,
            r.sparkle_impulse == self.state.sparkle_impulse,
            self.wf() ==> r.wf(),
    {
        WorldSnapshot::from_world_state(&self.state)
    }
}

impl Default for WorldEngine {
    /// A fresh engine over the neutral state.
    fn default() -> (r: WorldEngine)
        ensures
            r.wf(),
            r.state == (WorldState {
                density: HALF_UNIT,
                rhythm: HALF_UNIT,
                tension: HALF_UNIT,
                energy: HALF_UNIT,
                warmth: HALF_UNIT,
                sparkle_impulse: 0u64,
            }),
            r.sparkle_phase == 0,
    {
        WorldEngine::new()
    }
}

/// Every single transition keeps the five bounded scalars inside the
/// unit interval, whatever the event and whatever randomness the tick
/// consumed.
pub proof fn lemma_step_preserves_bounds(
    e: WorldEngine,
    event: Event,
    dirs: DriftDirections,
    draw: u64,
)
    requires
        e.wf(),
    ensures
        stepped(e, event, dirs, draw).wf(),
{
}

/// Boundedness for whole runs: from a well-formed engine, any sequence
/// of events — ticks with any drawn randomness, triggers and performs of
/// any intensity — leaves every bounded scalar inside the unit interval.
pub proof fn lemma_run_preserves_bounds(
    e: WorldEngine,
    script: Seq<(Event, DriftDirections, u64)>,
)
    requires
        e.wf(),
    ensures
        run_of(e, script).wf(),
    decreases script.len(),
{
    if script.len() > 0 {
        let first = script[0];
        lemma_step_preserves_bounds(e, first.0, first.1, first.2);
        lemma_run_preserves_bounds(
            stepped(e, first.0, first.1, first.2),
            script.subrange(1, script.len() as int),
        );
    }
}

/// The engine after folding a whole script of events, head first.
pub open spec fn run_of(e: WorldEngine, script: Seq<(Event, DriftDirections, u64)>) -> WorldEngine
    decreases script.len(),
{
    if script.len() == 0 {
        e
    } else {
        run_of(stepped(e, script[0].0, script[0].1, script[0].2), script.subrange(1, script.len() as int))
    }
}

} // verus!

