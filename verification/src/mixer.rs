//! Mixing and output: fixed per-layer gains, a master gain cap, soft-knee
//! limiting with a hard clip, interleaved fan-out of the mono mix, and
//! integer PCM rescaling.

use vstd::prelude::*;

use crate::fixed::{clamped_between, lemma_scaled_abs, lemma_scaled_bound, mul_div, scale_signed, scaled, UNIT};
use crate::layers::{
    drone_next_of, drone_out_of, sparkle_next_of, sparkle_out_of, texture_next_of, texture_out_of,
    DroneLayer, Layer, SparkleLayer, TextureLayer, RATE_MAX, RATE_MIN,
};
use crate::params::AudioParams;

verus! {

/// The drone's fixed mix gain, in millionths (0.3).
pub const DRONE_GAIN: u64 = 300_000;

/// The texture's fixed mix gain, in millionths (0.4).
pub const TEXTURE_GAIN: u64 = 400_000;

/// The sparkle's fixed mix gain, in millionths (0.6).
pub const SPARKLE_GAIN: u64 = 600_000;

/// Where the soft knee starts, in millionths (0.8).
pub const KNEE: i64 = 800_000;

/// Largest per-layer contribution the mixer accepts, in millionths.
pub const MIX_INPUT_LIMIT: i64 = 600_000_000_000;

/// The mixed output sample: the three contributions under their fixed
/// gains, summed, scaled by the master gain capped at one, compressed
/// 2:1 above the knee, and hard-clipped to one unit.
pub open spec fn mixed_sample_of(drone: int, texture: int, sparkle: int, master_gain: int) -> int {
    let sum = scaled(drone, DRONE_GAIN as int, UNIT as int)
        + scaled(texture, TEXTURE_GAIN as int, UNIT as int)
        + scaled(sparkle, SPARKLE_GAIN as int, UNIT as int);
    let gain = if master_gain > UNIT {
        UNIT as int
    } else {
        master_gain
    };
    let levelled = scaled(sum, gain, UNIT as int);
    let kneed = if levelled > KNEE {
        KNEE + (levelled - KNEE) / 2
    } else if levelled < -KNEE {
        -((KNEE as int) + ((-levelled) - KNEE) / 2)
    } else {
        levelled
    };
    clamped_between(kneed, -(UNIT as int), UNIT as int)
}

/// Whatever the three layers hand in and whatever the master gain, the
/// mixed sample sits inside `[-1, 1]` units: the final clip makes the
/// real-time path safe against any finite contribution.
pub proof fn lemma_mixed_sample_bounded(drone: int, texture: int, sparkle: int, master_gain: int)
    ensures
        -(UNIT as int) <= mixed_sample_of(drone, texture, sparkle, master_gain) <= UNIT as int,
{
}

/// Mixes one frame's three layer contributions into the output sample.
pub fn mix_sample(drone: i64, texture: i64, sparkle: i64, master_gain: u64) -> (r: i64)
    requires
        -MIX_INPUT_LIMIT <= drone <= MIX_INPUT_LIMIT,
        -MIX_INPUT_LIMIT <= texture <= MIX_INPUT_LIMIT,
        -MIX_INPUT_LIMIT <= sparkle <= MIX_INPUT_LIMIT,
    ensures
        r == mixed_sample_of(drone as int, texture as int, sparkle as int, master_gain as int),
        -1_000_000 <= r <= 1_000_000,
{
    let weighted_drone: i64 = scale_signed(drone, DRONE_GAIN, UNIT);
    let weighted_texture: i64 = scale_signed(texture, TEXTURE_GAIN, UNIT);
    let weighted_sparkle: i64 = scale_signed(sparkle, SPARKLE_GAIN, UNIT);
    let sum: i64 = weighted_drone + weighted_texture + weighted_sparkle;

    let gain: u64 = if master_gain > UNIT {
        UNIT
    } else {
        master_gain
    };
    let levelled: i64 = scale_signed(sum, gain, UNIT);

    let kneed: i64 = if levelled > KNEE {
        let excess: u64 = (levelled - KNEE) as u64;
        KNEE + (excess / 2) as i64
    } else if levelled < -KNEE {
        let excess: u64 = ((-levelled) - KNEE) as u64;
        -(KNEE + (excess / 2) as i64)
    } else {
        levelled
    };

    if kneed > UNIT as i64 {
        UNIT as i64
    } else if kneed < -(UNIT as i64) {
        -(UNIT as i64)
    } else {
        kneed
    }
}

/// The three layers the audio callback owns, processed in a fixed order
/// each frame and mixed under their fixed gains.
#[derive(Debug, Clone, Copy, PartialEq, Eq, Structural)]
pub struct LayerStack {
    pub drone: DroneLayer,
    pub texture: TextureLayer,
    pub sparkle: SparkleLayer,
}

impl LayerStack {
    /// All three layers are well formed.
    pub open spec fn inv(&self) -> bool {
        &&& self.drone.inv()
        &&& self.texture.inv()
        &&& self.sparkle.inv()
    }

    /// Creates the three layers at the given sample rate.
    pub fn new(sample_rate: u64) -> (r: LayerStack)
        requires
            RATE_MIN <= sample_rate <= RATE_MAX,
        ensures
            r.inv(),
            r.drone == (DroneLayer {
                phase_a: 0u64,
                phase_b: 0u64,
                smoothed_master_gain: 0u64,
                smoothed_base_freq_hz: crate::params::BASE_FREQ_CAP,
                smoothed_detune_ratio: UNIT,
                smoothed_brightness: 0u64,
                smoothed_motion: 0u64,
                smoothed_texture: 0u64,
                sample_rate: sample_rate,
            }),
            r.texture == (TextureLayer {
                noise_seed: 0u64,
                lfo_phase: 0u64,
                smoothed_density: 0u64,
                smoothed_warmth: 0u64,
                smoothed_tension: 0u64,
                smoothed_energy: 0u64,
                filter_x1: 0i64,
                filter_y1: 0i64,
                sample_rate: sample_rate,
            }),
            r.sparkle == (SparkleLayer {
                envelope_phase: UNIT,
                envelope_duration_samples: (sample_rate / 10) as u64,
                sample_rate: sample_rate,
                noise_seed: 0u64,
                smoothed_sparkle_impulse: 0u64,
                prev_smoothed_impulse: 0u64,
                smoothed_tension: 0u64,
                smoothed_motion: 0u64,
                smoothed_brightness: 0u64,
            }),
    {
        LayerStack {
            drone: DroneLayer::new(sample_rate),
            texture: TextureLayer::new(sample_rate),
            sparkle: SparkleLayer::new(sample_rate),
        }
    }

    /// Processes one frame: each layer produces its sample against the
    /// bundle and the three are mixed, the result landing in `[-1, 1]`
    /// units.
    pub fn process_frame(&mut self, params: &AudioParams) -> (s: i64)
        requires
            old(self).inv(),
            params.wf(),
        ensures
            final(self).inv(),
            *final(self) == (LayerStack {
                drone: drone_next_of(old(self).drone, *params),
                texture: texture_next_of(old(self).texture, *params),
                sparkle: sparkle_next_of(old(self).sparkle, *params),
            }),
            s == mixed_sample_of(
                drone_out_of(old(self).drone, *params),
                texture_out_of(old(self).texture, *params),
                sparkle_out_of(old(self).sparkle, *params),
                params.master_gain as int,
            ),
            -1_000_000 <= s <= 1_000_000,
    {
        let drone_sample: i64 = self.drone.process(params);
        let texture_sample: i64 = self.texture.process(params);
        let sparkle_sample: i64 = self.sparkle.process(params);
        mix_sample(drone_sample, texture_sample, sparkle_sample, params.master_gain)
    }

    /// Renders a run of mono frames against one bundle read: the
    /// sample of frame `i` is the mix after `i` per-frame steps, and the
    /// stack ends `frames` steps ahead.
    pub fn render_frames(&mut self, params: &AudioParams, frames: usize) -> (out: Vec<i64>)
        requires
            old(self).inv(),
            params.wf(),
            frames <= 100_000_000,
        ensures
            final(self).inv(),
            *final(self) == stack_after(*old(self), *params, frames as nat),
            out.len() == frames,
            forall|i: int|
                0 <= i < frames ==> #[trigger] out[i] == stack_sample(
                    *old(self),
                    *params,
                    i as nat,
                ),
            forall|i: int| 0 <= i < out.len() ==> -1_000_000 <= #[trigger] out[i] <= 1_000_000,
    {
        let ghost start = *self;
        let mut out: Vec<i64> = Vec::new();
        let mut frame: usize = 0;
        while frame < frames
            invariant
                self.inv(),
                params.wf(),
                frames <= 100_000_000,
                frame <= frames,
                *self == stack_after(start, *params, frame as nat),
                out.len() == frame,
                forall|i: int|
                    0 <= i < frame ==> #[trigger] out[i] == stack_sample(start, *params, i as nat),
                forall|i: int| 0 <= i < out.len() ==> -1_000_000 <= #[trigger] out[i] <= 1_000_000,
            decreases frames - frame,
        {
            let sample: i64 = self.process_frame(params);
            out.push(sample);
            frame = frame + 1;
        }
        out
    }

    /// Fills a caller-supplied interleaved buffer in place, so the
    /// steady-state audio path allocates nothing: the bundle is read
    /// once, each of the `len / channels` whole frames gets its mono
    /// mix copied across its channel slots, and a ragged tail shorter
    /// than one frame is silenced. The buffer's length never changes,
    /// so one buffer can be reused across calls.
    pub fn fill_interleaved(&mut self, params: &AudioParams, channels: usize, out: &mut Vec<i64>)
        requires
            old(self).inv(),
            params.wf(),
            1 <= channels,
            old(out).len() <= 100_000_000,
        ensures
            final(self).inv(),
            *final(self) == stack_after(
                *old(self),
                *params,
                (old(out).len() as int / channels as int) as nat,
            ),
            final(out).len() == old(out).len(),
            forall|f: int, c: int|
                0 <= f < old(out).len() as int / channels as int && 0 <= c < channels
                    ==> #[trigger] final(out)[f * channels + c] == stack_sample(
                    *old(self),
                    *params,
                    f as nat,
                ),
            forall|i: int|
                (old(out).len() as int / channels as int) * channels <= i < final(out).len()
                    ==> #[trigger] final(out)[i] == 0,
            forall|i: int|
                0 <= i < final(out).len() ==> -1_000_000 <= #[trigger] final(out)[i] <= 1_000_000,
    {
        let len: usize = out.len();
        let frames: usize = len / channels;
        proof {
            lemma_whole_frames_fit(channels as int, len as int);
        }
        self.fill_whole_frames(params, channels, frames, out);
        let ghost held = out@;
        let floor: usize = frames * channels;
        silence_tail(out, floor);
        proof {
            assert forall|f: int, c: int|
                0 <= f < frames && 0 <= c < channels implies #[trigger] out[f * channels + c]
                == stack_sample(*old(self), *params, f as nat) by {
                lemma_slot_below(f, c, frames as int, channels as int);
                assert(out[f * channels + c] == held[f * channels + c]);
            }
            assert forall|i: int| 0 <= i < out.len() implies -1_000_000 <= #[trigger] out[i]
                <= 1_000_000 by {
                if i < floor {
                    assert(out[i] == held[i]);
                } else {
                    assert(out[i] == 0);
                }
            }
        }
    }

    /// Renders the given number of whole frames into the buffer's
    /// prefix, fanning each frame's sample across its channel slots and
    /// leaving everything past the prefix alone.
    fn fill_whole_frames(
        &mut self,
        params: &AudioParams,
        channels: usize,
        frames: usize,
        out: &mut Vec<i64>,
    )
        requires
            old(self).inv(),
            params.wf(),
            1 <= channels,
            frames * channels <= old(out).len(),
            old(out).len() <= 100_000_000,
        ensures
            final(self).inv(),
            *final(self) == stack_after(*old(self), *params, frames as nat),
            final(out).len() == old(out).len(),
            forall|f: int, c: int|
                0 <= f < frames && 0 <= c < channels
                    ==> #[trigger] final(out)[f * channels + c] == stack_sample(
                    *old(self),
                    *params,
                    f as nat,
                ),
            forall|i: int|
                0 <= i < frames * channels ==> -1_000_000 <= #[trigger] final(out)[i] <= 1_000_000,
            forall|i: int|
                frames * channels <= i < final(out).len() ==> #[trigger] final(out)[i] == old(
                    out,
                )[i],
    {
        let ghost start = *self;
        let mut frame: usize = 0;
        while frame < frames
            invariant
                self.inv(),
                params.wf(),
                1 <= channels,
                frames * channels <= out.len(),
                out.len() == old(out).len(),
                out.len() <= 100_000_000,
                frame <= frames,
                *self == stack_after(start, *params, frame as nat),
                forall|f: int, c: int|
                    0 <= f < frame && 0 <= c < channels
                        ==> #[trigger] out[f * channels + c] == stack_sample(start, *params, f as nat),
                forall|i: int|
                    0 <= i < frame * channels ==> -1_000_000 <= #[trigger] out[i] <= 1_000_000,
                forall|i: int|
                    frame * channels <= i < out.len() ==> #[trigger] out[i] == old(out)[i],
            decreases frames - frame,
        {
            proof {
                assert(frame * channels + channels <= frames * channels) by (nonlinear_arith)
                    requires
                        frame < frames,
                        1 <= channels,
                ;
                assert(0 <= frame * channels) by (nonlinear_arith)
                    requires
                        0 <= frame,
                        1 <= channels,
                ;
            }
            let ghost held = out@;
            let sample: i64 = self.process_frame(params);
            let base: usize = frame * channels;
            write_frame(out, base, channels, sample);
            frame = frame + 1;
            proof {
                assert(frame * channels == base + channels) by (nonlinear_arith)
                    requires
                        base == (frame - 1) * channels,
                ;
                assert forall|f: int, c: int|
                    0 <= f < frame && 0 <= c < channels implies #[trigger] out[f * channels + c]
                    == stack_sample(start, *params, f as nat) by {
                    if f == frame - 1 {
                        assert(f * channels == base) by (nonlinear_arith)
                            requires
                                f == frame - 1,
                                base == (frame - 1) * channels,
                        ;
                        assert(out[base + c] == sample);
                    } else {
                        assert(f * channels + c < base) by (nonlinear_arith)
                            requires
                                0 <= f < frame - 1,
                                0 <= c < channels,
                                base == (frame - 1) * channels,
                        ;
                        assert(0 <= f * channels) by (nonlinear_arith)
                            requires
                                0 <= f,
                                1 <= channels,
                        ;
                        assert(out[f * channels + c] == held[f * channels + c]);
                    }
                }
                assert forall|i: int|
                    0 <= i < frame * channels implies -1_000_000 <= #[trigger] out[i]
                    <= 1_000_000 by {
                    if i < base {
                        assert(out[i] == held[i]);
                    } else {
                        assert(out[i] == sample);
                    }
                }
            }
        }
    }
}

/// The whole frames of a buffer fit inside it.
proof fn lemma_whole_frames_fit(channels: int, len: int)
    requires
        1 <= channels,
        0 <= len,
    ensures
        0 <= (len / channels) * channels <= len,
{
    vstd::arithmetic::div_mod::lemma_fundamental_div_mod(len, channels);
    assert((len / channels) * channels <= len) by (nonlinear_arith)
        requires
            len == channels * (len / channels) + len % channels,
            0 <= len % channels,
            1 <= channels,
            0 <= len,
    ;
    assert(0 <= (len / channels) * channels) by (nonlinear_arith)
        requires
            0 <= len / channels,
            1 <= channels,
    ;
}

/// Writes one frame's sample across its channel slots, leaving every
/// other slot alone.
fn write_frame(out: &mut Vec<i64>, base: usize, channels: usize, sample: i64)
    requires
        base + channels <= old(out).len(),
    ensures
        final(out).len() == old(out).len(),
        forall|k: int| 0 <= k < base ==> #[trigger] final(out)[k] == old(out)[k],
        forall|k: int| base <= k < base + channels ==> #[trigger] final(out)[k] == sample,
        forall|k: int|
            base + channels <= k < final(out).len() ==> #[trigger] final(out)[k] == old(out)[k],
{
    let mut channel: usize = 0;
    while channel < channels
        invariant
            base + channels <= out.len(),
            channel <= channels,
            out.len() == old(out).len(),
            forall|k: int| 0 <= k < base ==> #[trigger] out[k] == old(out)[k],
            forall|k: int| base <= k < base + channel ==> #[trigger] out[k] == sample,
            forall|k: int| base + channel <= k < out.len() ==> #[trigger] out[k] == old(out)[k],
        decreases channels - channel,
    {
        let ghost before = out@;
        let idx: usize = base + channel;
        out[idx] = sample;
        proof {
            assert(out@ == before.update(idx as int, sample));
            assert forall|k: int| 0 <= k < out.len() && k != idx implies #[trigger] out[k]
                == before[k] by {
                assert(before.update(idx as int, sample)[k] == before[k]);
            }
        }
        channel = channel + 1;
    }
}

/// Silences every slot from the given index on, leaving the prefix
/// alone.
fn silence_tail(out: &mut Vec<i64>, from: usize)
    requires
        from <= old(out).len(),
    ensures
        final(out).len() == old(out).len(),
        forall|k: int| 0 <= k < from ==> #[trigger] final(out)[k] == old(out)[k],
        forall|k: int| from <= k < final(out).len() ==> #[trigger] final(out)[k] == 0,
{
    let len: usize = out.len();
    let mut i: usize = from;
    while i < len
        invariant
            from <= i <= len,
            len == old(out).len(),
            out.len() == len,
            forall|k: int| 0 <= k < from ==> #[trigger] out[k] == old(out)[k],
            forall|k: int| from <= k < i ==> #[trigger] out[k] == 0,
        decreases len - i,
    {
        let ghost before = out@;
        out[i] = 0;
        proof {
            assert(out@ == before.update(i as int, 0i64));
            assert forall|k: int| 0 <= k < out.len() && k != i implies #[trigger] out[k]
                == before[k] by {
                assert(before.update(i as int, 0i64)[k] == before[k]);
            }
        }
        i = i + 1;
    }
}

/// One per-frame step of the whole stack.
pub open spec fn stack_stepped(l: LayerStack, p: AudioParams) -> LayerStack {
    LayerStack {
        drone: drone_next_of(l.drone, p),
        texture: texture_next_of(l.texture, p),
        sparkle: sparkle_next_of(l.sparkle, p),
    }
}

/// The stack after `n` per-frame steps against one bundle.
pub open spec fn stack_after(l: LayerStack, p: AudioParams, n: nat) -> LayerStack
    decreases n,
{
    if n == 0 {
        l
    } else {
        stack_stepped(stack_after(l, p, (n - 1) as nat), p)
    }
}

/// The mixed sample of the `n`-th frame against one bundle.
pub open spec fn stack_sample(l: LayerStack, p: AudioParams, n: nat) -> int {
    let s = stack_after(l, p, n);
    mixed_sample_of(
        drone_out_of(s.drone, p),
        texture_out_of(s.texture, p),
        sparkle_out_of(s.sparkle, p),
        p.master_gain as int,
    )
}

/// A slot of an earlier frame lies before the current frame's start.
proof fn lemma_slot_below(f2: int, c2: int, f: int, channels: int) by (nonlinear_arith)
    requires
        0 <= c2 < channels,
        0 <= f2 < f,
    ensures
        0 <= f2 * channels + c2,
        f2 * channels + c2 < f * channels,
{
}

/// Fans a mono buffer out across interleaved channels: every slot of
/// frame `f` carries the mono sample of frame `f`.
pub fn interleave(mono: &Vec<i64>, channels: usize) -> (out: Vec<i64>)
    requires
        1 <= channels,
        mono.len() * channels <= 100_000_000,
    ensures
        out.len() == mono.len() * channels,
        forall|f: int, c: int|
            0 <= f < mono.len() && 0 <= c < channels
                ==> #[trigger] out[f * channels + c] == mono[f],
{
    let frames: usize = mono.len();
    let mut out: Vec<i64> = Vec::new();
    let mut frame: usize = 0;
    while frame < frames
        invariant
            1 <= channels,
            frames == mono.len(),
            frames * channels <= 100_000_000,
            frame <= frames,
            out.len() == frame * channels,
            forall|f: int, c: int|
                0 <= f < frame && 0 <= c < channels
                    ==> #[trigger] out[f * channels + c] == mono[f],
        decreases frames - frame,
    {
        proof {
            assert((frame + 1) * channels <= frames * channels) by (nonlinear_arith)
                requires
                    frame < frames,
                    1 <= channels,
            ;
            assert(frame * channels + channels == (frame + 1) * channels) by (nonlinear_arith);
        }
        let sample: i64 = mono[frame];
        let ghost frame_start: int = out.len() as int;
        let mut channel: usize = 0;
        while channel < channels
            invariant
                1 <= channels,
                channel <= channels,
                frames == mono.len(),
                frame < frames,
                sample == mono[frame as int],
                frame_start == frame * channels,
                out.len() == frame_start + channel,
                frame_start + channels <= 100_000_000,
                forall|f: int, c: int|
                    0 <= f < frame && 0 <= c < channels
                        ==> #[trigger] out[f * channels + c] == mono[f],
                forall|k: int| frame_start <= k < out.len() ==> #[trigger] out[k] == sample,
            decreases channels - channel,
        {
            let ghost before = out@;
            out.push(sample);
            proof {
                assert(out@ == before.push(sample));
                assert forall|k: int| frame_start <= k < out.len() implies #[trigger] out[k]
                    == sample by {
                    if k < before.len() {
                        assert(before[k] == sample);
                        assert(before.push(sample)[k] == before[k]);
                    } else {
                        assert(before.push(sample)[k] == sample);
                    }
                }
                assert forall|f: int, c: int|
                    0 <= f < frame && 0 <= c < channels implies #[trigger] out[f * channels + c]
                    == mono[f] by {
                    lemma_slot_below(f, c, frame as int, channels as int);
                    assert(before[f * channels + c] == mono[f]);
                    assert(before.push(sample)[f * channels + c] == before[f * channels + c]);
                }
            }
            channel = channel + 1;
        }
        frame = frame + 1;
        proof {
            assert forall|f: int, c: int|
                0 <= f < frame && 0 <= c < channels implies #[trigger] out[f * channels + c]
                == mono[f] by {
                if f == frame - 1 {
                    assert(f * channels == frame_start) by (nonlinear_arith)
                        requires
                            f == frame - 1,
                            frame_start == (frame - 1) * channels,
                    ;
                    assert(out[frame_start + c] == sample);
                }
            }
        }
    }
    out
}

/// A mixed sample rescaled to a signed 16-bit PCM value.
pub fn sample_to_i16(s: i64) -> (r: i16)
    requires
        -1_000_000 <= s <= 1_000_000,
    ensures
        r == scaled(s as int, 32_767, UNIT as int),
        -32_767 <= r <= 32_767,
{
    proof {
        lemma_scaled_abs(s as int, 32_767, UNIT as int, 1_000_000, 32_767);
    }
    scale_signed(s, 32_767, UNIT) as i16
}

/// A mixed sample rescaled to an unsigned 16-bit PCM value: shifted to
/// `[0, 2]` units, then spread over the full 16-bit range.
pub fn sample_to_u16(s: i64) -> (r: u16)
    requires
        -1_000_000 <= s <= 1_000_000,
    ensures
        r == ((s + UNIT) * 65_535) / 2_000_000,
        r <= 65_535,
{
    let shifted: u64 = (s + UNIT as i64) as u64;
    proof {
        lemma_scaled_bound(shifted as int, 65_535, 2_000_000, 2_000_000, 65_535);
    }
    mul_div(shifted, 65_535, 2_000_000) as u16
}

} // verus!
