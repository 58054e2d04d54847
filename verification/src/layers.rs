//! The three synthesis layers: a detuned drone, an envelope-triggered
//! sparkle and a filtered noise bed. Each consumes one parameter bundle
//! per sample, keeps fixed-point internal state, and produces a sample
//! whose exact value and bounds are stated in its contract.

use vstd::prelude::*;

use crate::dsp::{
    decay_curve, decay_of, noise_sample, noise_sample_of, noise_seed_next, noise_step, sine_of, sine_wave, smooth_toward,
    smoothed, NOISE_MOD,
};
use crate::fixed::{mul_div, scale_signed, scaled, HALF_UNIT, UNIT};
use crate::params::{
    AudioParams, BASE_FREQ_CAP, BASE_FREQ_MIN, DETUNE_MAX, DETUNE_MIN,
};

verus! {

/// Smallest supported sample rate, in hertz.
pub const RATE_MIN: u64 = 1_000;

/// Largest supported sample rate, in hertz.
pub const RATE_MAX: u64 = 1_000_000;

/// A bound on the magnitude of any layer's sample, in millionths.
pub const SAMPLE_PEAK: i64 = 400_000_000;

/// The drone's per-sample smoothing divisor (a coefficient of 0.01).
pub const DRONE_SMOOTH_DIV: u64 = 100;

/// An audio layer: consumes one parameter bundle, produces one sample,
/// advancing its internal state by its own published step function.
pub trait Layer: Sized {
    /// The layer's internal state is well formed.
    spec fn inv(&self) -> bool;

    /// The state after processing one sample against the bundle.
    spec fn next_spec(&self, params: AudioParams) -> Self;

    /// The sample produced against the bundle, in millionths.
    spec fn out_spec(&self, params: AudioParams) -> int;

    /// Produces one sample and advances the layer's state.
    fn process(&mut self, params: &AudioParams) -> (s: i64)
        requires
            old(self).inv(),
            params.wf(),
        ensures
            final(self).inv(),
            *final(self) == old(self).next_spec(*params),
            s == old(self).out_spec(*params),
            -SAMPLE_PEAK <= s <= SAMPLE_PEAK,
    ;
}

/// Drone layer: two sine oscillators, the second detuned, averaged and
/// scaled by the smoothed master gain.
#[derive(Debug, Clone, Copy, PartialEq, Eq, Structural)]
pub struct DroneLayer {
    pub phase_a: u64,
    pub phase_b: u64,
    pub smoothed_master_gain: u64,
    pub smoothed_base_freq_hz: u64,
    pub smoothed_detune_ratio: u64,
    pub smoothed_brightness: u64,
    pub smoothed_motion: u64,
    pub smoothed_texture: u64,
    pub sample_rate: u64,
}

/// The drone's state after its parameter copies take one smoothing step
/// toward the bundle.
pub open spec fn drone_smoothed(l: DroneLayer, p: AudioParams) -> DroneLayer {
    DroneLayer {
        smoothed_master_gain: smoothed(
            l.smoothed_master_gain as int,
            p.master_gain as int,
            DRONE_SMOOTH_DIV as int,
        ) as u64,
        smoothed_base_freq_hz: smoothed(
            l.smoothed_base_freq_hz as int,
            p.base_freq_hz as int,
            DRONE_SMOOTH_DIV as int,
        ) as u64,
        smoothed_detune_ratio: smoothed(
            l.smoothed_detune_ratio as int,
            p.detune_ratio as int,
            DRONE_SMOOTH_DIV as int,
        ) as u64,
        smoothed_brightness: smoothed(
            l.smoothed_brightness as int,
            p.brightness as int,
            DRONE_SMOOTH_DIV as int,
        ) as u64,
        smoothed_motion: smoothed(
            l.smoothed_motion as int,
            p.motion as int,
            DRONE_SMOOTH_DIV as int,
        ) as u64,
        smoothed_texture: smoothed(
            l.smoothed_texture as int,
            p.texture as int,
            DRONE_SMOOTH_DIV as int,
        ) as u64,
        ..l
    }
}

/// The detuned oscillator's frequency, in micro-hertz.
pub open spec fn drone_freq_b(l: DroneLayer) -> int {
    (l.smoothed_base_freq_hz * l.smoothed_detune_ratio) / (UNIT as int)
}

/// The drone's state after one sample: parameters smoothed, then both
/// phase accumulators advanced by their frequency's cycle fraction.
pub open spec fn drone_next_of(l: DroneLayer, p: AudioParams) -> DroneLayer {
    let s = drone_smoothed(l, p);
    DroneLayer {
        phase_a: ((s.phase_a + s.smoothed_base_freq_hz / s.sample_rate) % (UNIT as int)) as u64,
        phase_b: ((s.phase_b + drone_freq_b(s) / (s.sample_rate as int)) % (UNIT as int)) as u64,
        ..s
    }
}

/// The drone's sample: the average of the two oscillators, scaled by the
/// smoothed master gain.
pub open spec fn drone_out_of(l: DroneLayer, p: AudioParams) -> int {
    let s = drone_smoothed(l, p);
    scaled(
        scaled(sine_of(s.phase_a as int) + sine_of(s.phase_b as int), 1, 2),
        s.smoothed_master_gain as int,
        UNIT as int,
    )
}

impl DroneLayer {
    /// Creates a quiet drone at the given sample rate.
    pub fn new(sample_rate: u64) -> (r: DroneLayer)
        requires
            RATE_MIN <= sample_rate <= RATE_MAX,
        ensures
            r.inv(),
            r == (DroneLayer {
                phase_a: 0u64,
                phase_b: 0u64,
                smoothed_master_gain: 0u64,
                smoothed_base_freq_hz: BASE_FREQ_CAP,
                smoothed_detune_ratio: UNIT,
                smoothed_brightness: 0u64,
                smoothed_motion: 0u64,
                smoothed_texture: 0u64,
                sample_rate: sample_rate,
            }),
    {
        DroneLayer {
            phase_a: 0,
            phase_b: 0,
            smoothed_master_gain: 0,
            smoothed_base_freq_hz: BASE_FREQ_CAP,
            smoothed_detune_ratio: UNIT,
            smoothed_brightness: 0,
            smoothed_motion: 0,
            smoothed_texture: 0,
            sample_rate,
        }
    }
}

impl Layer for DroneLayer {
    open spec fn inv(&self) -> bool {
        &&& self.phase_a < UNIT
        &&& self.phase_b < UNIT
        &&& self.smoothed_master_gain <= UNIT
        &&& BASE_FREQ_MIN <= self.smoothed_base_freq_hz <= BASE_FREQ_CAP
        &&& DETUNE_MIN <= self.smoothed_detune_ratio <= DETUNE_MAX
        &&& self.smoothed_brightness <= UNIT
        &&& self.smoothed_motion <= UNIT
        &&& self.smoothed_texture <= UNIT
        &&& RATE_MIN <= self.sample_rate <= RATE_MAX
    }

    open spec fn next_spec(&self, params: AudioParams) -> DroneLayer {
        drone_next_of(*self, params)
    }

    open spec fn out_spec(&self, params: AudioParams) -> int {
        drone_out_of(*self, params)
    }

    fn process(&mut self, params: &AudioParams) -> (s: i64) {
        self.smoothed_master_gain = smooth_toward(
            self.smoothed_master_gain,
            params.master_gain,
            DRONE_SMOOTH_DIV,
        );
        self.smoothed_base_freq_hz = smooth_toward(
            self.smoothed_base_freq_hz,
            params.base_freq_hz,
            DRONE_SMOOTH_DIV,
        );
        self.smoothed_detune_ratio = smooth_toward(
            self.smoothed_detune_ratio,
            params.detune_ratio,
            DRONE_SMOOTH_DIV,
        );
        self.smoothed_brightness = smooth_toward(
            self.smoothed_brightness,
            params.brightness,
            DRONE_SMOOTH_DIV,
        );
        self.smoothed_motion = smooth_toward(self.smoothed_motion, params.motion, DRONE_SMOOTH_DIV);
        self.smoothed_texture = smooth_toward(
            self.smoothed_texture,
            params.texture,
            DRONE_SMOOTH_DIV,
        );

        let freq_a: u64 = self.smoothed_base_freq_hz;
        let freq_b: u64 = mul_div(freq_a, self.smoothed_detune_ratio, UNIT);
        proof {
            crate::fixed::lemma_scaled_bound(
                freq_a as int,
                self.smoothed_detune_ratio as int,
                UNIT as int,
                BASE_FREQ_CAP as int,
                DETUNE_MAX as int,
            );
        }

        let sample_a: i64 = sine_wave(self.phase_a);
        let sample_b: i64 = sine_wave(self.phase_b);
        let mixed: i64 = scale_signed(sample_a + sample_b, 1, 2);
        let out: i64 = scale_signed(mixed, self.smoothed_master_gain, UNIT);

        self.phase_a = (self.phase_a + freq_a / self.sample_rate) % UNIT;
        self.phase_b = (self.phase_b + freq_b / self.sample_rate) % UNIT;

        out
    }
}

/// The sparkle's per-sample smoothing divisor (a fast coefficient of
/// 0.2, to catch quick impulses).
pub const SPARKLE_SMOOTH_DIV: u64 = 5;

/// The smoothed impulse level that triggers a new envelope, in
/// millionths (0.002).
pub const SPARKLE_THRESHOLD: u64 = 2_000;

/// The sparkle sample's clip level, in millionths (0.8).
pub const SPARKLE_CLIP: i64 = 800_000;

/// Sparkle layer: a filtered noise burst shaped by an attack/decay
/// envelope, fired when the smoothed impulse crosses upward through a
/// small threshold, and silent while the envelope is complete.
#[derive(Debug, Clone, Copy, PartialEq, Eq, Structural)]
pub struct SparkleLayer {
    pub envelope_phase: u64,
    pub envelope_duration_samples: u64,
    pub sample_rate: u64,
    pub noise_seed: u64,
    pub smoothed_sparkle_impulse: u64,
    pub prev_smoothed_impulse: u64,
    pub smoothed_tension: u64,
    pub smoothed_motion: u64,
    pub smoothed_brightness: u64,
}

/// Where the envelope's attack ends: 15% of it plus a quarter of the
/// tension copy, so higher tension means a longer smooth attack.
pub open spec fn sparkle_attack(tension: int) -> int {
    150_000 + tension / 4
}

/// The envelope's value at a phase: a quarter-sine ramp through the
/// attack, then the rational decay curve over the rest.
pub open spec fn envelope_of(phase: int, tension: int) -> int {
    let attack = sparkle_attack(tension);
    if phase < attack {
        sine_of(((phase * UNIT) / attack) / 4)
    } else {
        decay_of(((phase - attack) * UNIT) / (UNIT - attack))
    }
}

/// The burst's motion factor: one plus one and a half units of motion.
pub open spec fn sparkle_motion_factor(motion: int) -> int {
    UNIT + (motion * 3) / 2
}

/// The burst's brightness factor: 0.7 plus three fifths of brightness.
pub open spec fn sparkle_brightness_factor(brightness: int) -> int {
    700_000 + (brightness * 3) / 5
}

/// The burst's rhythmic amplitude modulation: one plus a fifth of how
/// far `2 * motion * envelope` sits from one unit.
pub open spec fn sparkle_mod_factor(motion: int, env: int) -> int {
    let m = (2 * motion * env) / (UNIT as int);
    if m >= UNIT {
        UNIT + (m - UNIT) / 5
    } else {
        UNIT - (UNIT - m) / 5
    }
}

/// The filtered noise burst: fresh noise scaled by the brightness
/// factor, the envelope, the modulation factor and the motion factor in
/// turn.
pub open spec fn sparkle_burst_of(seed_after: int, env: int, brightness: int, motion: int) -> int {
    let base = noise_sample_of(seed_after);
    let filtered = scaled(base, sparkle_brightness_factor(brightness), UNIT as int);
    let enveloped = scaled(filtered, env, UNIT as int);
    let modulated = scaled(enveloped, sparkle_mod_factor(motion, env), UNIT as int);
    scaled(modulated, sparkle_motion_factor(motion), UNIT as int)
}

/// The sparkle's state after its parameter copies take one fast
/// smoothing step; the impulse copy chases the bundle's impulse capped
/// at one unit (the burst's amplitude ceiling), and the previous copy is
/// kept for edge detection.
pub open spec fn sparkle_smoothed(l: SparkleLayer, p: AudioParams) -> SparkleLayer {
    let target = if p.sparkle_impulse > UNIT {
        UNIT as int
    } else {
        p.sparkle_impulse as int
    };
    SparkleLayer {
        prev_smoothed_impulse: l.smoothed_sparkle_impulse,
        smoothed_sparkle_impulse: smoothed(
            l.smoothed_sparkle_impulse as int,
            target,
            SPARKLE_SMOOTH_DIV as int,
        ) as u64,
        smoothed_tension: smoothed(
            l.smoothed_tension as int,
            p.detune_ratio as int,
            SPARKLE_SMOOTH_DIV as int,
        ) as u64,
        smoothed_motion: smoothed(
            l.smoothed_motion as int,
            p.motion as int,
            SPARKLE_SMOOTH_DIV as int,
        ) as u64,
        smoothed_brightness: smoothed(
            l.smoothed_brightness as int,
            p.brightness as int,
            SPARKLE_SMOOTH_DIV as int,
        ) as u64,
        ..l
    }
}

/// The envelope's length for this sample: 50–200 ms of the sample rate,
/// stretched by the motion copy.
pub open spec fn sparkle_duration(l: SparkleLayer) -> int {
    (l.sample_rate * (50_000 + (l.smoothed_motion * 3) / 20)) / (UNIT as int)
}

/// The envelope phase after edge-triggering: restarted at zero when the
/// smoothed impulse crosses upward through the threshold while the
/// envelope is complete.
pub open spec fn sparkle_triggered_phase(l: SparkleLayer) -> int {
    if l.smoothed_sparkle_impulse > SPARKLE_THRESHOLD && l.envelope_phase >= UNIT
        && l.prev_smoothed_impulse <= SPARKLE_THRESHOLD {
        0
    } else {
        l.envelope_phase as int
    }
}

/// The sparkle's state after one sample: smoothing, a fresh duration,
/// the trigger check, and — while the envelope runs — one noise step and
/// an envelope advance that saturates at completion.
pub open spec fn sparkle_next_of(l: SparkleLayer, p: AudioParams) -> SparkleLayer {
    let s = sparkle_smoothed(l, p);
    let dur = sparkle_duration(s);
    let ph = sparkle_triggered_phase(s);
    if ph < UNIT {
        let inc = (UNIT as int) / dur;
        let ph2 = if ph + inc > UNIT {
            UNIT as int
        } else {
            ph + inc
        };
        SparkleLayer {
            envelope_duration_samples: dur as u64,
            envelope_phase: ph2 as u64,
            noise_seed: noise_seed_next(s.noise_seed as int) as u64,
            ..s
        }
    } else {
        SparkleLayer { envelope_duration_samples: dur as u64, envelope_phase: ph as u64, ..s }
    }
}

/// The sparkle's sample: zero while the envelope is complete; otherwise
/// the burst scaled by the smoothed impulse and clipped to ±0.8.
pub open spec fn sparkle_out_of(l: SparkleLayer, p: AudioParams) -> int {
    let s = sparkle_smoothed(l, p);
    let ph = sparkle_triggered_phase(s);
    if ph < UNIT {
        let env = envelope_of(ph, s.smoothed_tension as int);
        let burst = sparkle_burst_of(
            noise_seed_next(s.noise_seed as int),
            env,
            s.smoothed_brightness as int,
            s.smoothed_motion as int,
        );
        crate::fixed::clamped_between(
            scaled(burst, s.smoothed_sparkle_impulse as int, UNIT as int),
            -(SPARKLE_CLIP as int),
            SPARKLE_CLIP as int,
        )
    } else {
        0
    }
}

impl SparkleLayer {
    /// Creates an idle sparkle layer at the given sample rate: the
    /// envelope starts complete, so the layer is silent until an
    /// impulse arrives.
    pub fn new(sample_rate: u64) -> (r: SparkleLayer)
        requires
            RATE_MIN <= sample_rate <= RATE_MAX,
        ensures
            r.inv(),
            r == (SparkleLayer {
                envelope_phase: UNIT,
                envelope_duration_samples: (sample_rate / 10) as u64,
                sample_rate: sample_rate,
                noise_seed: 0u64,
                smoothed_sparkle_impulse: 0u64,
                prev_smoothed_impulse: 0u64,
                smoothed_tension: 0u64,
                smoothed_motion: 0u64,
                smoothed_brightness: 0u64,
            }),
    {
        SparkleLayer {
            envelope_phase: UNIT,
            envelope_duration_samples: sample_rate / 10,
            sample_rate,
            noise_seed: 0,
            smoothed_sparkle_impulse: 0,
            prev_smoothed_impulse: 0,
            smoothed_tension: 0,
            smoothed_motion: 0,
            smoothed_brightness: 0,
        }
    }

    /// The envelope's value at a phase, given the tension copy.
    fn envelope(&self, phase: u64, tension: u64) -> (r: u64)
        requires
            phase < UNIT,
            tension <= DETUNE_MAX,
        ensures
            r == envelope_of(phase as int, tension as int),
            r <= UNIT,
    {
        let attack: u64 = 150_000 + tension / 4;
        if phase < attack {
            let ramp: u64 = mul_div(phase, UNIT, attack);
            proof {
                assert((phase as int * (UNIT as int)) / (attack as int) < UNIT as int)
                    by (nonlinear_arith)
                    requires
                        phase < attack,
                        1 <= attack,
                        UNIT == 1_000_000u64,
                ;
            }
            sine_wave(ramp / 4) as u64
        } else {
            let span: u64 = UNIT - attack;
            let fall: u64 = mul_div(phase - attack, UNIT, span);
            proof {
                assert(((phase - attack) as int * (UNIT as int)) / (span as int) <= UNIT as int)
                    by (nonlinear_arith)
                    requires
                        attack <= phase < UNIT,
                        span == UNIT - attack,
                        1 <= span,
                        UNIT == 1_000_000u64,
                ;
            }
            decay_curve(fall)
        }
    }

    /// One filtered noise burst: advances the noise generator and shapes
    /// the fresh sample by brightness, envelope, modulation and motion.
    fn filtered_noise_burst(&mut self, envelope_value: u64, brightness: u64, motion: u64) -> (r: i64)
        requires
            old(self).inv(),
            envelope_value <= UNIT,
            brightness <= UNIT,
            motion <= UNIT,
        ensures
            final(self).inv(),
            *final(self) == (SparkleLayer {
                noise_seed: noise_seed_next(old(self).noise_seed as int) as u64,
                ..*old(self)
            }),
            r == sparkle_burst_of(
                noise_seed_next(old(self).noise_seed as int),
                envelope_value as int,
                brightness as int,
                motion as int,
            ),
            -4_000_000 <= r <= 4_000_000,
    {
        self.noise_seed = noise_step(self.noise_seed);
        let base: i64 = noise_sample(self.noise_seed);

        let motion_factor: u64 = UNIT + (motion * 3) / 2;
        let brightness_factor: u64 = 700_000 + (brightness * 3) / 5;

        let filtered: i64 = scale_signed(base, brightness_factor, UNIT);
        proof {
            crate::fixed::lemma_scaled_abs(
                base as int,
                brightness_factor as int,
                UNIT as int,
                1_000_000,
                1_300_000,
            );
        }

        let doubled: u64 = mul_div(2 * motion, envelope_value, UNIT);
        let mod_factor: u64 = if doubled >= UNIT {
            UNIT + (doubled - UNIT) / 5
        } else {
            UNIT - (UNIT - doubled) / 5
        };

        let enveloped: i64 = scale_signed(filtered, envelope_value, UNIT);
        let modulated: i64 = scale_signed(enveloped, mod_factor, UNIT);
        proof {
            crate::fixed::lemma_scaled_abs(
                enveloped as int,
                mod_factor as int,
                UNIT as int,
                1_300_000,
                1_200_000,
            );
        }
        let shaped: i64 = scale_signed(modulated, motion_factor, UNIT);
        proof {
            crate::fixed::lemma_scaled_abs(
                modulated as int,
                motion_factor as int,
                UNIT as int,
                1_560_000,
                2_500_000,
            );
        }
        shaped
    }
}

impl Layer for SparkleLayer {
    open spec fn inv(&self) -> bool {
        &&& self.envelope_phase <= UNIT
        &&& 50 <= self.envelope_duration_samples <= 200_000
        &&& RATE_MIN <= self.sample_rate <= RATE_MAX
        &&& self.noise_seed < NOISE_MOD
        &&& self.smoothed_sparkle_impulse <= UNIT
        &&& self.prev_smoothed_impulse <= UNIT
        &&& self.smoothed_tension <= DETUNE_MAX
        &&& self.smoothed_motion <= UNIT
        &&& self.smoothed_brightness <= UNIT
    }

    open spec fn next_spec(&self, params: AudioParams) -> SparkleLayer {
        sparkle_next_of(*self, params)
    }

    open spec fn out_spec(&self, params: AudioParams) -> int {
        sparkle_out_of(*self, params)
    }

    fn process(&mut self, params: &AudioParams) -> (s: i64) {
        let target: u64 = if params.sparkle_impulse > UNIT {
            UNIT
        } else {
            params.sparkle_impulse
        };
        self.prev_smoothed_impulse = self.smoothed_sparkle_impulse;
        self.smoothed_sparkle_impulse = smooth_toward(
            self.smoothed_sparkle_impulse,
            target,
            SPARKLE_SMOOTH_DIV,
        );
        self.smoothed_tension = smooth_toward(
            self.smoothed_tension,
            params.detune_ratio,
            SPARKLE_SMOOTH_DIV,
        );
        self.smoothed_motion = smooth_toward(self.smoothed_motion, params.motion, SPARKLE_SMOOTH_DIV);
        self.smoothed_brightness = smooth_toward(
            self.smoothed_brightness,
            params.brightness,
            SPARKLE_SMOOTH_DIV,
        );

        let stretch: u64 = 50_000 + (self.smoothed_motion * 3) / 20;
        self.envelope_duration_samples = mul_div(self.sample_rate, stretch, UNIT);
        proof {
            assert(self.sample_rate * stretch >= 50_000_000) by (nonlinear_arith)
                requires
                    self.sample_rate >= 1_000,
                    stretch >= 50_000,
            ;
            crate::fixed::lemma_scaled_bound(
                self.sample_rate as int,
                stretch as int,
                UNIT as int,
                1_000_000,
                200_000,
            );
        }

        if self.smoothed_sparkle_impulse > SPARKLE_THRESHOLD && self.envelope_phase >= UNIT
            && self.prev_smoothed_impulse <= SPARKLE_THRESHOLD {
            self.envelope_phase = 0;
        }

        if self.envelope_phase < UNIT {
            let env: u64 = self.envelope(self.envelope_phase, self.smoothed_tension);
            let burst: i64 = self.filtered_noise_burst(
                env,
                self.smoothed_brightness,
                self.smoothed_motion,
            );
            let amplified: i64 = scale_signed(burst, self.smoothed_sparkle_impulse, UNIT);

            let inc: u64 = UNIT / self.envelope_duration_samples;
            if inc > UNIT - self.envelope_phase {
                self.envelope_phase = UNIT;
            } else {
                self.envelope_phase = self.envelope_phase + inc;
            }

            if amplified > SPARKLE_CLIP {
                SPARKLE_CLIP
            } else if amplified < -SPARKLE_CLIP {
                -SPARKLE_CLIP
            } else {
                amplified
            }
        } else {
            0
        }
    }
}

/// While the sparkle's envelope is complete and no trigger fires, the
/// layer's sample is exactly zero.
pub proof fn lemma_sparkle_idle_silent(l: SparkleLayer, p: AudioParams)
    requires
        sparkle_triggered_phase(sparkle_smoothed(l, p)) >= UNIT,
    ensures
        sparkle_out_of(l, p) == 0,
{
}

/// The texture's per-sample smoothing divisor (a very slow coefficient
/// of 0.005).
pub const TEXTURE_SMOOTH_DIV: u64 = 200;

/// A bound on the texture's one-pole filter state, in millionths.
pub const FILTER_PEAK: i64 = 2_400_000_000;

/// Texture layer: a continuous noise bed with tension-dependent
/// roughness, low-pass filtered under the warmth copy and slowly
/// amplitude-modulated by an energy-driven triangle LFO.
#[derive(Debug, Clone, Copy, PartialEq, Eq, Structural)]
pub struct TextureLayer {
    pub noise_seed: u64,
    pub lfo_phase: u64,
    pub smoothed_density: u64,
    pub smoothed_warmth: u64,
    pub smoothed_tension: u64,
    pub smoothed_energy: u64,
    pub filter_x1: i64,
    pub filter_y1: i64,
    pub sample_rate: u64,
}

/// The texture's state after its parameter copies take one slow
/// smoothing step: density chases the bundle's texture, warmth its
/// brightness, tension its detune ratio and energy its motion.
pub open spec fn texture_smoothed(l: TextureLayer, p: AudioParams) -> TextureLayer {
    TextureLayer {
        smoothed_density: smoothed(
            l.smoothed_density as int,
            p.texture as int,
            TEXTURE_SMOOTH_DIV as int,
        ) as u64,
        smoothed_warmth: smoothed(
            l.smoothed_warmth as int,
            p.brightness as int,
            TEXTURE_SMOOTH_DIV as int,
        ) as u64,
        smoothed_tension: smoothed(
            l.smoothed_tension as int,
            p.detune_ratio as int,
            TEXTURE_SMOOTH_DIV as int,
        ) as u64,
        smoothed_energy: smoothed(
            l.smoothed_energy as int,
            p.motion as int,
            TEXTURE_SMOOTH_DIV as int,
        ) as u64,
        ..l
    }
}

/// Fresh noise roughened by an odd-order term: a tenth of the tension
/// copy times the sample's cube grows its magnitude slightly.
pub open spec fn rough_noise_of(seed_after: int, tension: int) -> int {
    let base = noise_sample_of(seed_after);
    let mag = if base >= 0 {
        base
    } else {
        -base
    };
    let cube = ((mag * mag) / (UNIT as int) * mag) / (UNIT as int);
    let extra = (cube * (tension / 10)) / (UNIT as int);
    if base >= 0 {
        base + extra
    } else {
        base - extra
    }
}

/// One step of the one-pole low-pass filter under a cutoff: the cutoff
/// is confined to (0, 1), and the output mixes the input with the
/// previous input and output.
pub open spec fn filtered_of(input: int, x1: int, y1: int, cutoff: int) -> int {
    let a = crate::fixed::clamped_between(cutoff, 1_000, 990_000);
    let b = (UNIT as int) - a;
    scaled(input, a, UNIT as int) + scaled(x1, b, UNIT as int) - scaled(y1, b, UNIT as int)
}

/// The LFO phase after one sample: advanced by the energy-driven
/// frequency's cycle fraction (0.01–0.1 Hz).
pub open spec fn lfo_phase_next(l: TextureLayer) -> int {
    (l.lfo_phase + (10_000 + (l.smoothed_energy * 9) / 100) / (l.sample_rate as int)) % (UNIT as int)
}

/// The bipolar triangle wave at an LFO phase.
pub open spec fn lfo_out_of(phase: int) -> int {
    let tri = if phase < HALF_UNIT {
        2 * phase
    } else {
        2 * ((UNIT as int) - phase)
    };
    2 * tri - UNIT
}

/// The texture's state after one sample: smoothing, one noise step, one
/// filter step and one LFO step.
pub open spec fn texture_next_of(l: TextureLayer, p: AudioParams) -> TextureLayer {
    let s = texture_smoothed(l, p);
    let seed2 = noise_seed_next(s.noise_seed as int);
    let rough = rough_noise_of(seed2, s.smoothed_tension as int);
    let filtered = filtered_of(rough, s.filter_x1 as int, s.filter_y1 as int, s.smoothed_warmth as int);
    TextureLayer {
        noise_seed: seed2 as u64,
        filter_x1: rough as i64,
        filter_y1: filtered as i64,
        lfo_phase: lfo_phase_next(s) as u64,
        ..s
    }
}

/// The texture's sample: the filtered rough noise, modulated ±30% by
/// the LFO, scaled by the density copy and a fixed gain of a tenth.
pub open spec fn texture_out_of(l: TextureLayer, p: AudioParams) -> int {
    let s = texture_smoothed(l, p);
    let seed2 = noise_seed_next(s.noise_seed as int);
    let rough = rough_noise_of(seed2, s.smoothed_tension as int);
    let filtered = filtered_of(rough, s.filter_x1 as int, s.filter_y1 as int, s.smoothed_warmth as int);
    let wave = lfo_out_of(lfo_phase_next(s));
    let factor = if wave >= 0 {
        UNIT + (wave * 3) / 10
    } else {
        (UNIT as int) - ((-wave) * 3) / 10
    };
    let modulated = scaled(filtered, factor, UNIT as int);
    let levelled = scaled(modulated, s.smoothed_density as int, UNIT as int);
    scaled(levelled, 100_000, UNIT as int)
}

impl TextureLayer {
    /// Creates a silent texture layer at the given sample rate.
    pub fn new(sample_rate: u64) -> (r: TextureLayer)
        requires
            RATE_MIN <= sample_rate <= RATE_MAX,
        ensures
            r.inv(),
            r == (TextureLayer {
                noise_seed: 0u64,
                lfo_phase: 0u64,
                smoothed_density: 0u64,
                smoothed_warmth: 0u64,
                smoothed_tension: 0u64,
                smoothed_energy: 0u64,
                filter_x1: 0i64,
                filter_y1: 0i64,
                sample_rate: sample_rate,
            }),
    {
        TextureLayer {
            noise_seed: 0,
            lfo_phase: 0,
            smoothed_density: 0,
            smoothed_warmth: 0,
            smoothed_tension: 0,
            smoothed_energy: 0,
            filter_x1: 0,
            filter_y1: 0,
            sample_rate,
        }
    }

    /// Advances the noise generator and roughens the fresh sample by the
    /// tension copy.
    fn noise(&mut self, tension: u64) -> (r: i64)
        requires
            old(self).inv(),
            tension <= DETUNE_MAX,
        ensures
            final(self).inv(),
            *final(self) == (TextureLayer {
                noise_seed: noise_seed_next(old(self).noise_seed as int) as u64,
                ..*old(self)
            }),
            r == rough_noise_of(noise_seed_next(old(self).noise_seed as int), tension as int),
            -1_200_000 <= r <= 1_200_000,
    {
        self.noise_seed = noise_step(self.noise_seed);
        let base: i64 = noise_sample(self.noise_seed);
        let mag: u64 = if base >= 0 {
            base as u64
        } else {
            (-base) as u64
        };
        proof {
            assert(mag * mag <= 1_000_000_000_000) by (nonlinear_arith)
                requires
                    mag <= 1_000_000,
            ;
            crate::fixed::lemma_scaled_bound(mag as int, mag as int, UNIT as int, 1_000_000, 1_000_000);
        }
        let square: u64 = (mag * mag) / UNIT;
        proof {
            assert(square * mag <= 1_000_000_000_000) by (nonlinear_arith)
                requires
                    square <= 1_000_000,
                    mag <= 1_000_000,
            ;
            crate::fixed::lemma_scaled_bound(square as int, mag as int, UNIT as int, 1_000_000, 1_000_000);
        }
        let cube: u64 = (square * mag) / UNIT;
        let extra: u64 = mul_div(cube, tension / 10, UNIT);
        proof {
            crate::fixed::lemma_scaled_bound(cube as int, (tension / 10) as int, UNIT as int, 1_000_000, 200_000);
        }
        if base >= 0 {
            base + extra as i64
        } else {
            base - extra as i64
        }
    }

    /// One low-pass filter step: mixes the input with the stored
    /// previous input and output, then records both.
    fn filter(&mut self, input: i64, cutoff: u64) -> (r: i64)
        requires
            old(self).inv(),
            -1_200_000 <= input <= 1_200_000,
        ensures
            final(self).inv(),
            *final(self) == (TextureLayer {
                filter_x1: input,
                filter_y1: filtered_of(
                    input as int,
                    old(self).filter_x1 as int,
                    old(self).filter_y1 as int,
                    cutoff as int,
                ) as i64,
                ..*old(self)
            }),
            r == filtered_of(
                input as int,
                old(self).filter_x1 as int,
                old(self).filter_y1 as int,
                cutoff as int,
            ),
            -FILTER_PEAK <= r <= FILTER_PEAK,
    {
        let a: u64 = crate::fixed::clamp_between(cutoff, 1_000, 990_000);
        let b: u64 = UNIT - a;
        let direct: i64 = scale_signed(input, a, UNIT);
        let echo: i64 = scale_signed(self.filter_x1, b, UNIT);
        let feedback: i64 = scale_signed(self.filter_y1, b, UNIT);
        proof {
            crate::fixed::lemma_scaled_abs(
                self.filter_y1 as int,
                b as int,
                UNIT as int,
                2_400_000_000,
                999_000,
            );
        }
        let out: i64 = direct + echo - feedback;
        self.filter_x1 = input;
        self.filter_y1 = out;
        out
    }

    /// One LFO step: advances the phase by the energy-driven frequency
    /// and returns the bipolar triangle wave at the new phase.
    fn lfo(&mut self, energy: u64) -> (r: i64)
        requires
            old(self).inv(),
            energy == old(self).smoothed_energy,
        ensures
            final(self).inv(),
            *final(self) == (TextureLayer {
                lfo_phase: lfo_phase_next(*old(self)) as u64,
                ..*old(self)
            }),
            r == lfo_out_of(lfo_phase_next(*old(self))),
            -1_000_000 <= r <= 1_000_000,
    {
        let freq: u64 = 10_000 + (energy * 9) / 100;
        let inc: u64 = freq / self.sample_rate;
        self.lfo_phase = (self.lfo_phase + inc) % UNIT;
        let tri: u64 = if self.lfo_phase < HALF_UNIT {
            2 * self.lfo_phase
        } else {
            2 * (UNIT - self.lfo_phase)
        };
        (2 * tri) as i64 - UNIT as i64
    }
}

impl Layer for TextureLayer {
    open spec fn inv(&self) -> bool {
        &&& self.noise_seed < NOISE_MOD
        &&& self.lfo_phase < UNIT
        &&& self.smoothed_density <= UNIT
        &&& self.smoothed_warmth <= UNIT
        &&& self.smoothed_tension <= DETUNE_MAX
        &&& self.smoothed_energy <= UNIT
        &&& -1_200_000 <= self.filter_x1 <= 1_200_000
        &&& -FILTER_PEAK <= self.filter_y1 <= FILTER_PEAK
        &&& RATE_MIN <= self.sample_rate <= RATE_MAX
    }

    open spec fn next_spec(&self, params: AudioParams) -> TextureLayer {
        texture_next_of(*self, params)
    }

    open spec fn out_spec(&self, params: AudioParams) -> int {
        texture_out_of(*self, params)
    }

    fn process(&mut self, params: &AudioParams) -> (s: i64) {
        self.smoothed_density = smooth_toward(
            self.smoothed_density,
            params.texture,
            TEXTURE_SMOOTH_DIV,
        );
        self.smoothed_warmth = smooth_toward(
            self.smoothed_warmth,
            params.brightness,
            TEXTURE_SMOOTH_DIV,
        );
        self.smoothed_tension = smooth_toward(
            self.smoothed_tension,
            params.detune_ratio,
            TEXTURE_SMOOTH_DIV,
        );
        self.smoothed_energy = smooth_toward(
            self.smoothed_energy,
            params.motion,
            TEXTURE_SMOOTH_DIV,
        );

        let rough: i64 = self.noise(self.smoothed_tension);
        let smooth_cutoff: u64 = self.smoothed_warmth;
        let filtered: i64 = self.filter(rough, smooth_cutoff);
        let wave: i64 = self.lfo(self.smoothed_energy);

        let factor: u64 = if wave >= 0 {
            UNIT + ((wave as u64) * 3) / 10
        } else {
            UNIT - (((-wave) as u64) * 3) / 10
        };
        let modulated: i64 = scale_signed(filtered, factor, UNIT);
        proof {
            crate::fixed::lemma_scaled_abs(
                filtered as int,
                factor as int,
                UNIT as int,
                2_400_000_000,
                1_300_000,
            );
        }
        let levelled: i64 = scale_signed(modulated, self.smoothed_density, UNIT);
        let out: i64 = scale_signed(levelled, 100_000, UNIT);
        proof {
            crate::fixed::lemma_scaled_abs(
                levelled as int,
                100_000,
                UNIT as int,
                3_120_000_000,
                100_000,
            );
        }
        out
    }
}

} // verus!
