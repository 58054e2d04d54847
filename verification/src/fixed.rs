//! Fixed-point scalar arithmetic.
//!
//! Every quantity in this crate is carried as an integer counting millionths
//! of a unit, so that each update rule is exact integer arithmetic and every
//! range claim can be proved.

use vstd::prelude::*;

verus! {

/// One whole unit, counted in millionths.
pub const UNIT: u64 = 1_000_000;

/// Half a unit: the neutral midpoint of the bounded world scalars.
pub const HALF_UNIT: u64 = 500_000;

/// Largest tick length accepted, in microseconds (a million seconds).
/// Keeps every per-tick product comfortably inside 64 bits.
pub const DT_LIMIT: u64 = 1_000_000_000_000;

/// Largest magnitude accepted for a signed adjustment, in millionths
/// (a thousand million units). Keeps clamped sums inside 64 bits.
pub const DELTA_LIMIT: i64 = 1_000_000_000_000_000;

/// A value clamped to the unit interval, as mathematics on `int`.
pub open spec fn clamped_unit(v: int) -> int {
    if v < 0 {
        0
    } else if v > UNIT {
        UNIT as int
    } else {
        v
    }
}

/// A value clamped to the closed range `[lo, hi]`, as mathematics on
/// `int`.
pub open spec fn clamped_between(v: int, lo: int, hi: int) -> int {
    if v < lo {
        lo
    } else if v > hi {
        hi
    } else {
        v
    }
}

/// Truncating tenth of a signed value: the magnitude is divided by
/// ten and the sign kept, so it rounds toward zero.
pub open spec fn tenth_of(d: int) -> int {
    if d >= 0 {
        d / 10
    } else {
        -((-d) / 10)
    }
}

/// Scaling of a signed value by the ratio `num / den`, magnitude rounded
/// toward zero.
pub open spec fn scaled(v: int, num: int, den: int) -> int {
    if v >= 0 {
        (v * num) / den
    } else {
        -(((-v) * num) / den)
    }
}

/// Clamps a non-negative value to the unit interval `[0, UNIT]`.
pub fn clamp_unit(v: u64) -> (r: u64)
    ensures
        r == clamped_unit(v as int),
        r <= UNIT,
{
    if v > UNIT {
        UNIT
    } else {
        v
    }
}

/// Clamps a signed value to the unit interval `[0, UNIT]`.
pub fn clamp_unit_signed(v: i64) -> (r: u64)
    ensures
        r == clamped_unit(v as int),
        r <= UNIT,
{
    if v < 0 {
        0
    } else if v > UNIT as i64 {
        UNIT
    } else {
        v as u64
    }
}

/// Clamps a value to the closed range `[lo, hi]`.
pub fn clamp_between(v: u64, lo: u64, hi: u64) -> (r: u64)
    requires
        lo <= hi,
    ensures
        r == clamped_between(v as int, lo as int, hi as int),
        lo <= r <= hi,
{
    if v < lo {
        lo
    } else if v > hi {
        hi
    } else {
        v
    }
}

/// Adds a signed adjustment to a unit-interval value and re-clamps:
/// the shape of every trigger's effect on a bounded scalar.
pub fn add_clamped(base: u64, delta: i64) -> (r: u64)
    requires
        base <= UNIT,
        -DELTA_LIMIT <= delta <= DELTA_LIMIT,
    ensures
        r == clamped_unit(base + delta),
        r <= UNIT,
{
    let sum: i64 = base as i64 + delta;
    clamp_unit_signed(sum)
}

/// Truncating tenth of a signed adjustment.
pub fn tenth(delta: i64) -> (r: i64)
    requires
        -DELTA_LIMIT <= delta <= DELTA_LIMIT,
    ensures
        r == tenth_of(delta as int),
        -DELTA_LIMIT <= r <= DELTA_LIMIT,
{
    if delta >= 0 {
        ((delta as u64) / 10) as i64
    } else {
        let mag: u64 = (-delta) as u64;
        -((mag / 10) as i64)
    }
}

/// Multiplies then divides, for moderate operands.
pub fn mul_div(a: u64, b: u64, den: u64) -> (r: u64)
    requires
        a <= 4_000_000_000_000,
        b <= 4_000_000,
        den >= 1,
    ensures
        r == (a * b) / den as int,
        b <= den ==> r <= a,
{
    proof {
        assert(a * b <= 4_000_000_000_000 * 4_000_000) by (nonlinear_arith)
            requires
                a <= 4_000_000_000_000,
                b <= 4_000_000,
        ;
        if b <= den {
            lemma_mul_div_shrinks(a as int, b as int, den as int);
        }
    }
    (a * b) / den
}

/// Scaling a value by `num / den` cannot grow its magnitude when
/// `num <= den`.
proof fn lemma_mul_div_shrinks(a: int, b: int, den: int) by (nonlinear_arith)
    requires
        0 <= a,
        0 <= b <= den,
        1 <= den,
    ensures
        (a * b) / den <= a,
{
}

/// Scales a signed value by the ratio `num / den`, splitting on the sign so
/// that all machine arithmetic stays unsigned.
pub fn scale_signed(v: i64, num: u64, den: u64) -> (r: i64)
    requires
        -2_000_000_000_000 <= v <= 2_000_000_000_000,
        num <= 4_000_000,
        den >= 1,
    ensures
        r == scaled(v as int, num as int, den as int),
        num <= den ==> (v >= 0 ==> 0 <= r <= v) && (v < 0 ==> v <= r <= 0),
{
    if v >= 0 {
        let mag: u64 = v as u64;
        proof {
            assert(mag * num <= 2_000_000_000_000 * 4_000_000) by (nonlinear_arith)
                requires
                    mag <= 2_000_000_000_000,
                    num <= 4_000_000,
            ;
            if num <= den {
                lemma_mul_div_shrinks(mag as int, num as int, den as int);
            }
        }
        ((mag * num) / den) as i64
    } else {
        let mag: u64 = (-v) as u64;
        proof {
            assert(mag * num <= 2_000_000_000_000 * 4_000_000) by (nonlinear_arith)
                requires
                    mag <= 2_000_000_000_000,
                    num <= 4_000_000,
            ;
            if num <= den {
                lemma_mul_div_shrinks(mag as int, num as int, den as int);
            }
        }
        -(((mag * num) / den) as i64)
    }
}

/// A product over non-negative bounded factors is bounded by the product of
/// the bounds, surviving the truncating division.
pub proof fn lemma_scaled_bound(a: int, n: int, d: int, ab: int, nb: int) by (nonlinear_arith)
    requires
        0 <= a <= ab,
        0 <= n <= nb,
        1 <= d,
    ensures
        (a * n) / d <= (ab * nb) / d,
{
}

/// Signed scaling respects magnitude bounds: if `|v| <= vb` and
/// `num <= nb`, the scaled value's magnitude is at most `(vb * nb) / d`.
pub proof fn lemma_scaled_abs(v: int, num: int, d: int, vb: int, nb: int) by (nonlinear_arith)
    requires
        -vb <= v <= vb,
        0 <= vb,
        0 <= num <= nb,
        1 <= d,
    ensures
        -((vb * nb) / d) <= scaled(v, num, d) <= (vb * nb) / d,
{
}

} // verus!
