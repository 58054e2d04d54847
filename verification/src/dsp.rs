//! Fixed-point signal primitives: a parabolic sine wave, a rational
//! decay curve, a linear-congruential noise source and one-pole
//! parameter smoothing. Each is exact integer arithmetic with proved
//! bounds.

use vstd::prelude::*;

use crate::fixed::{HALF_UNIT, UNIT};

verus! {

/// The noise generator's modulus, `2^31`.
pub const NOISE_MOD: u64 = 0x8000_0000;

/// One period of a sine-like wave over the unit cycle: the classic
/// parabolic approximation `4 t (1 - t)` on each half period, scaled to
/// peak at one unit.
pub open spec fn sine_of(cycle: int) -> int {
    if cycle < HALF_UNIT {
        (4 * cycle * (HALF_UNIT - cycle)) / 250_000
    } else {
        -((4 * (cycle - HALF_UNIT) * (UNIT - cycle)) / 250_000)
    }
}

/// The parabola `4 x (h - x)` on `[0, h]` peaks at `h^2`.
proof fn lemma_parabola_peak(x: int, h: int) by (nonlinear_arith)
    requires
        0 <= x <= h,
    ensures
        0 <= 4 * x * (h - x) <= h * h,
{
}

/// One sample of the sine-like wave at the given point of the cycle.
pub fn sine_wave(cycle: u64) -> (r: i64)
    requires
        cycle < UNIT,
    ensures
        r == sine_of(cycle as int),
        -1_000_000 <= r <= 1_000_000,
        cycle <= 250_000 ==> r >= 0,
{
    if cycle < HALF_UNIT {
        let x: u64 = cycle;
        proof {
            lemma_parabola_peak(x as int, HALF_UNIT as int);
        }
        ((4 * x * (HALF_UNIT - x)) / 250_000) as i64
    } else {
        let x: u64 = cycle - HALF_UNIT;
        proof {
            lemma_parabola_peak(x as int, HALF_UNIT as int);
        }
        -(((4 * x * (UNIT - cycle)) / 250_000) as i64)
    }
}

/// A smooth decay from one unit toward zero over the unit interval: the
/// rational curve `1 / (1 + 3 x + 4.5 x^2)`, in millionths.
pub open spec fn decay_of(x: int) -> int {
    (UNIT * UNIT) / (UNIT + 3 * x + (9 * x * x) / 2_000_000)
}

/// A larger denominator gives a smaller quotient.
proof fn lemma_div_antitone(n: int, d1: int, d2: int) by (nonlinear_arith)
    requires
        0 <= n,
        1 <= d1 <= d2,
    ensures
        n / d2 <= n / d1,
{
}

/// One sample of the decay curve.
pub fn decay_curve(x: u64) -> (r: u64)
    requires
        x <= UNIT,
    ensures
        r == decay_of(x as int),
        r <= UNIT,
{
    proof {
        assert(9 * x * x <= 9_000_000_000_000) by (nonlinear_arith)
            requires
                x <= 1_000_000,
        ;
    }
    let square_term: u64 = (9 * x * x) / 2_000_000;
    let denominator: u64 = UNIT + 3 * x + square_term;
    proof {
        lemma_div_antitone((UNIT * UNIT) as int, UNIT as int, denominator as int);
    }
    (UNIT * UNIT) / denominator
}

/// The next state of the linear-congruential noise generator.
pub open spec fn noise_seed_next(seed: int) -> int {
    (seed * 1_103_515_245 + 12_345) % (NOISE_MOD as int)
}

/// The bipolar sample a noise state yields, in millionths.
pub open spec fn noise_sample_of(seed: int) -> int {
    (seed * 2_000_000) / (NOISE_MOD as int) - 1_000_000
}

/// Advances the noise generator and returns its new state.
pub fn noise_step(seed: u64) -> (next: u64)
    requires
        seed < NOISE_MOD,
    ensures
        next == noise_seed_next(seed as int),
        next < NOISE_MOD,
{
    (seed * 1_103_515_245 + 12_345) % NOISE_MOD
}

/// The bipolar noise sample for a generator state.
pub fn noise_sample(seed: u64) -> (r: i64)
    requires
        seed < NOISE_MOD,
    ensures
        r == noise_sample_of(seed as int),
        -1_000_000 <= r < 1_000_000,
{
    ((seed * 2_000_000) / NOISE_MOD) as i64 - 1_000_000
}

/// One step of one-pole smoothing: the current value moves toward the
/// target by the difference over `div` (truncated), so it always stays
/// between the two.
pub open spec fn smoothed(current: int, target: int, div: int) -> int {
    if target >= current {
        current + (target - current) / div
    } else {
        current - (current - target) / div
    }
}

/// Moves a smoothed parameter one step toward its target.
pub fn smooth_toward(current: u64, target: u64, div: u64) -> (r: u64)
    requires
        div >= 1,
        current <= 4_000_000_000_000,
        target <= 4_000_000_000_000,
    ensures
        r == smoothed(current as int, target as int, div as int),
        current <= target ==> current <= r <= target,
        target <= current ==> target <= r <= current,
{
    if target >= current {
        let gap: u64 = target - current;
        proof {
            lemma_div_step_le(gap as int, div as int);
        }
        current + gap / div
    } else {
        let gap: u64 = current - target;
        proof {
            lemma_div_step_le(gap as int, div as int);
        }
        current - gap / div
    }
}

/// Dividing a non-negative gap by at least one cannot grow it.
proof fn lemma_div_step_le(gap: int, div: int) by (nonlinear_arith)
    requires
        0 <= gap,
        1 <= div,
    ensures
        0 <= gap / div <= gap,
{
}

} // verus!
