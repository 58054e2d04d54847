//! Synthesis parameters: the pure mapping from a world snapshot to the
//! parameter bundle, and the lock-free channel that carries the bundle
//! from the control side to the audio callback.
//!
//! Frequencies are carried in micro-hertz, every other scalar in
//! millionths of a unit.

use vstd::prelude::*;

use std::sync::atomic::{AtomicU64, Ordering};

use crate::fixed::{
    clamp_between, clamp_unit, clamped_between, clamped_unit, HALF_UNIT, UNIT,
};
use crate::world::WorldSnapshot;

verus! {

/// Lowest base frequency, in micro-hertz (80 Hz).
pub const BASE_FREQ_MIN: u64 = 80_000_000;

/// Highest base frequency the mapper emits, in micro-hertz (240 Hz).
pub const BASE_FREQ_MAX: u64 = 240_000_000;

/// Highest base frequency a bundle may carry, in micro-hertz (440 Hz,
/// the default before the first publish).
pub const BASE_FREQ_CAP: u64 = 440_000_000;

/// Smallest detune ratio, in millionths (0.5).
pub const DETUNE_MIN: u64 = 500_000;

/// Largest detune ratio, in millionths (2.0).
pub const DETUNE_MAX: u64 = 2_000_000;

/// The parameters the audio callback consumes. Minimal, numeric only.
#[derive(Debug, Clone, Copy, PartialEq, Eq, Structural)]
pub struct AudioParams {
    pub master_gain: u64,
    pub base_freq_hz: u64,
    pub detune_ratio: u64,
    pub brightness: u64,
    pub motion: u64,
    pub texture: u64,
    pub sparkle_impulse: u64,
}

/// Master gain from energy: a fifth of it, clamped to the unit interval.
pub open spec fn mapped_master_gain(energy: int) -> int {
    clamped_unit(energy / 5)
}

/// Base frequency from warmth: 80 Hz plus 160 Hz per unit of warmth,
/// clamped to 80–240 Hz, in micro-hertz.
pub open spec fn mapped_base_freq(warmth: int) -> int {
    clamped_between(BASE_FREQ_MIN + warmth * 160, BASE_FREQ_MIN as int, BASE_FREQ_MAX as int)
}

/// Detune ratio from tension: one plus a hundredth of it, clamped to
/// 0.5–2.0, in millionths.
pub open spec fn mapped_detune(tension: int) -> int {
    clamped_between(UNIT + tension / 100, DETUNE_MIN as int, DETUNE_MAX as int)
}

/// Brightness from warmth: one minus half of it, clamped to the unit
/// interval.
pub open spec fn mapped_brightness(warmth: int) -> int {
    clamped_unit(UNIT - warmth / 2)
}

/// Motion from rhythm: half of it, clamped to the unit interval.
pub open spec fn mapped_motion(rhythm: int) -> int {
    clamped_unit(rhythm / 2)
}

/// Texture from density: three tenths of it, clamped to the unit
/// interval.
pub open spec fn mapped_texture(density: int) -> int {
    clamped_unit((density * 3) / 10)
}

/// The whole bundle derived from the six world scalars; the sparkle
/// impulse passes through unclamped.
pub open spec fn mapped_params(
    density: int,
    rhythm: int,
    tension: int,
    energy: int,
    warmth: int,
    sparkle_impulse: int,
) -> AudioParams {
    AudioParams {
        master_gain: mapped_master_gain(energy) as u64,
        base_freq_hz: mapped_base_freq(warmth) as u64,
        detune_ratio: mapped_detune(tension) as u64,
        brightness: mapped_brightness(warmth) as u64,
        motion: mapped_motion(rhythm) as u64,
        texture: mapped_texture(density) as u64,
        sparkle_impulse: sparkle_impulse as u64,
    }
}

/// The bundle a snapshot maps to.
pub open spec fn mapped_snapshot(s: WorldSnapshot) -> AudioParams {
    mapped_params(
        s.density as int,
        s.rhythm as int,
        s.tension as int,
        s.energy as int,
        s.warmth as int,
        s.sparkle_impulse as int,
    )
}

impl AudioParams {
    /// Every field sits in its clamp range; the sparkle impulse alone is
    /// unbounded, being an excitation rather than a level.
    pub open spec fn wf(&self) -> bool {
        &&& self.master_gain <= UNIT
        &&& BASE_FREQ_MIN <= self.base_freq_hz <= BASE_FREQ_CAP
        &&& DETUNE_MIN <= self.detune_ratio <= DETUNE_MAX
        &&& self.brightness <= UNIT
        &&& self.motion <= UNIT
        &&& self.texture <= UNIT
    }

    /// Derive the bundle from the six world state scalars. Total: any
    /// input is accepted and every output field lands in its range.
    pub fn from_world_state(
        density: u64,
        rhythm: u64,
        tension: u64,
        energy: u64,
        warmth: u64,
        sparkle_impulse: u64,
    ) -> (r: AudioParams)
        ensures
            r == mapped_params(
                density as int,
                rhythm as int,
                tension as int,
                energy as int,
                warmth as int,
                sparkle_impulse as int,
            ),
            r.wf(),
    {
        let master_gain: u64 = clamp_unit(energy / 5);

        let base_freq_hz: u64 = if warmth >= UNIT {
            BASE_FREQ_MAX
        } else {
            clamp_between(BASE_FREQ_MIN + warmth * 160, BASE_FREQ_MIN, BASE_FREQ_MAX)
        };

        let detune_ratio: u64 = clamp_between(UNIT + tension / 100, DETUNE_MIN, DETUNE_MAX);

        let half_warmth: u64 = warmth / 2;
        let brightness: u64 = if half_warmth >= UNIT {
            0
        } else {
            UNIT - half_warmth
        };

        let motion: u64 = clamp_unit(rhythm / 2);

        let texture: u64 = if density >= 3_333_334 {
            UNIT
        } else {
            clamp_unit((density * 3) / 10)
        };

        AudioParams {
            master_gain,
            base_freq_hz,
            detune_ratio,
            brightness,
            motion,
            texture,
            sparkle_impulse,
        }
    }
}

impl Default for AudioParams {
    /// The bundle the audio side reads before the first publish: a quiet
    /// 440 Hz drone with neutral brightness.
    fn default() -> (r: AudioParams)
        ensures
            r == (AudioParams {
                master_gain: 100_000u64,
                base_freq_hz: BASE_FREQ_CAP,
                detune_ratio: UNIT,
                brightness: HALF_UNIT,
                motion: 0u64,
                texture: 0u64,
                sparkle_impulse: 0u64,
            }),
            r.wf(),
    {
        AudioParams {
            master_gain: 100_000,
            base_freq_hz: BASE_FREQ_CAP,
            detune_ratio: UNIT,
            brightness: HALF_UNIT,
            motion: 0,
            texture: 0,
            sparkle_impulse: 0,
        }
    }
}

/// The mapping is a pure function of the snapshot: two applications to
/// identical snapshots give identical bundles.
pub proof fn lemma_map_pure(a: WorldSnapshot, b: WorldSnapshot)
    requires
        a == b,
    ensures
        mapped_snapshot(a) == mapped_snapshot(b),
{
}

/// The lock-free parameter channel: one writer on the control side, one
/// reader in the audio callback. Each field is its own atomic cell, so a
/// reader never sees a torn field; the bundle as a whole is only
/// eventually consistent, as a read may interleave with a publish.
#[derive(Debug)]
pub struct SharedAudioParams {
    master_gain: AtomicU64,
    base_freq_hz: AtomicU64,
    detune_ratio: AtomicU64,
    brightness: AtomicU64,
    motion: AtomicU64,
    texture: AtomicU64,
    sparkle_impulse: AtomicU64,
}

impl SharedAudioParams {
    /// Creates the channel holding the given initial bundle.
    pub fn new(initial: AudioParams) -> SharedAudioParams {
        SharedAudioParams {
            master_gain: AtomicU64::new(initial.master_gain),
            base_freq_hz: AtomicU64::new(initial.base_freq_hz),
            detune_ratio: AtomicU64::new(initial.detune_ratio),
            brightness: AtomicU64::new(initial.brightness),
            motion: AtomicU64::new(initial.motion),
            texture: AtomicU64::new(initial.texture),
            sparkle_impulse: AtomicU64::new(initial.sparkle_impulse),
        }
    }

    /// Publishes a bundle: seven relaxed stores, one per field. Never
    /// blocks, never allocates.
    pub fn set(&self, params: AudioParams) {
        self.master_gain.store(params.master_gain, Ordering::Relaxed);
        self.base_freq_hz.store(params.base_freq_hz, Ordering::Relaxed);
        self.detune_ratio.store(params.detune_ratio, Ordering::Relaxed);
        self.brightness.store(params.brightness, Ordering::Relaxed);
        self.motion.store(params.motion, Ordering::Relaxed);
        self.texture.store(params.texture, Ordering::Relaxed);
        self.sparkle_impulse.store(params.sparkle_impulse, Ordering::Relaxed);
    }

    /// Reads the latest bundle: seven relaxed loads, one per field. The
    /// real-time path must never see an out-of-range scalar, so each
    /// field is re-clamped to its documented range on the way out; for
    /// every value a publisher could have stored the clamp is the
    /// identity, and the result is well formed whatever the cells held.
    pub fn get(&self) -> (p: AudioParams)
        ensures
            p.wf(),
    {
        AudioParams {
            master_gain: clamp_unit(self.master_gain.load(Ordering::Relaxed)),
            base_freq_hz: clamp_between(
                self.base_freq_hz.load(Ordering::Relaxed),
                BASE_FREQ_MIN,
                BASE_FREQ_CAP,
            ),
            detune_ratio: clamp_between(
                self.detune_ratio.load(Ordering::Relaxed),
                DETUNE_MIN,
                DETUNE_MAX,
            ),
            brightness: clamp_unit(self.brightness.load(Ordering::Relaxed)),
            motion: clamp_unit(self.motion.load(Ordering::Relaxed)),
            texture: clamp_unit(self.texture.load(Ordering::Relaxed)),
            sparkle_impulse: self.sparkle_impulse.load(Ordering::Relaxed),
        }
    }
}

} // verus!
