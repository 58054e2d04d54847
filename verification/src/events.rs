//! Events that drive the world simulation.
//!
//! Scalars are fixed-point millionths: a tick length `dt` counts
//! microseconds, an intensity counts millionths of a unit.

use vstd::prelude::*;

use crate::fixed::{DELTA_LIMIT, DT_LIMIT};

verus! {

/// The five discrete trigger gestures.
#[derive(Debug, Clone, Copy, PartialEq, Eq, Structural)]
pub enum TriggerKind {
    Pulse,
    Stir,
    Calm,
    Heat,
    Tense,
}

/// Performed actions mirror the triggers, plus two reserved no-ops on
/// state: a scene change and a freeze (microseconds).
#[derive(Debug, Clone, PartialEq)]
pub enum PerformAction {
    Pulse { intensity: i64 },
    Stir { intensity: i64 },
    Calm { intensity: i64 },
    Heat { intensity: i64 },
    Tense { intensity: i64 },
    Scene { name: String },
    Freeze { micros: i64 },
}

/// An event folded into the world state: a clock tick (microseconds), an
/// ad-hoc trigger, or a performed action.
#[derive(Debug, Clone, PartialEq)]
pub enum Event {
    Tick { dt: u64 },
    Trigger { kind: TriggerKind, intensity: i64 },
    Perform(PerformAction),
}

impl PerformAction {
    /// The action's scalars are small enough for exact 64-bit arithmetic.
    pub open spec fn wf(&self) -> bool {
        match *self {
            PerformAction::Pulse { intensity } => -DELTA_LIMIT <= intensity <= DELTA_LIMIT,
            PerformAction::Stir { intensity } => -DELTA_LIMIT <= intensity <= DELTA_LIMIT,
            PerformAction::Calm { intensity } => -DELTA_LIMIT <= intensity <= DELTA_LIMIT,
            PerformAction::Heat { intensity } => -DELTA_LIMIT <= intensity <= DELTA_LIMIT,
            PerformAction::Tense { intensity } => -DELTA_LIMIT <= intensity <= DELTA_LIMIT,
            PerformAction::Scene { .. } => true,
            PerformAction::Freeze { .. } => true,
        }
    }
}

impl Event {
    /// The event's scalars are small enough for exact 64-bit arithmetic.
    pub open spec fn wf(&self) -> bool {
        match *self {
            Event::Tick { dt } => dt <= DT_LIMIT,
            Event::Trigger { kind: _, intensity } => -DELTA_LIMIT <= intensity <= DELTA_LIMIT,
            Event::Perform(ref action) => action.wf(),
        }
    }
}

} // verus!
