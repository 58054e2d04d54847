//! An ambient soundscape engine: a slowly drifting world state drives a
//! layered fixed-point synthesis pipeline through a small parameter bundle.
//!
//! All scalars are carried as integers counting millionths of a unit, so
//! every update rule is exact and every bound is proved.

pub mod dsp;
pub mod engine;
pub mod events;
pub mod fixed;
pub mod layers;
pub mod messages;
pub mod mixer;
pub mod params;
pub mod random;
pub mod world;
