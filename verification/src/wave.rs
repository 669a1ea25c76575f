//! The two curves an oscillator needs, as rational approximations that
//! integer arithmetic computes exactly: a sine over fractions of a turn and
//! a power of two over fractions of an octave.

use crate::fixed::ONE;
use vstd::arithmetic::div_mod::{
    lemma_div_is_ordered, lemma_div_multiples_vanish, lemma_div_pos_is_pos,
    lemma_fundamental_div_mod_converse,
};
use vstd::arithmetic::power2::{lemma2_to64, lemma_pow2_pos, lemma_pow2_strictly_increases, pow2};
use vstd::bits::{lemma_u64_shl_is_mul, lemma_u64_shr_is_div};
use vstd::prelude::*;

verus! {

/// A full turn of phase. Phase counts units of two to the minus 32 of a turn.
pub const TURN: u64 = 0x1_0000_0000;

/// The sine is evaluated on a grid of this many phase units.
pub const GRAIN: u64 = 0x1_0000;

/// Grid points in half a turn.
pub const HALF_TURN_POINTS: u64 = 0x8000;

/// Cents in an octave.
pub const CENTS_PER_OCTAVE: i64 = 1200;

/// Coefficients of the cubic that stands for two to the power of a fraction;
/// they add up to `ONE`, so the curve runs from one to two.
pub const EXP2_LINEAR: u64 = 45610;

pub const EXP2_SQUARE: u64 = 14734;

pub const EXP2_CUBE: u64 = 5192;

/// The positive half of the sine wave at grid point `x` of half a turn:
/// `16 u / (5 - 4 u)` with `u = (x / h) * (1 - x / h)`, scaled to `ONE` and
/// rounded down. It is within two thousandths of the true sine.
pub open spec fn half_wave(x: int) -> int {
    let h = HALF_TURN_POINTS as int;
    let u = x * (h - x);
    16 * ONE * u / (5 * h * h - 4 * u)
}

/// The sine of `phase`, which may be any number of phase units: the phase is
/// taken within its turn and rounded down to the grid.
pub open spec fn sine(phase: int) -> int {
    let x = (phase % (TURN as int)) / (GRAIN as int);
    if x < HALF_TURN_POINTS {
        half_wave(x)
    } else {
        -half_wave(x - HALF_TURN_POINTS)
    }
}

/// Two to the power of `fraction / ONE`, for a fraction of an octave below
/// `ONE`, scaled to `ONE`: a cubic within two parts in ten thousand of the
/// true curve.
pub open spec fn exp2_fraction(fraction: int) -> int {
    let square = EXP2_SQUARE + fraction * EXP2_CUBE / (ONE as int);
    let linear = EXP2_LINEAR + fraction * square / (ONE as int);
    ONE + fraction * linear / (ONE as int)
}

/// Two to the power of `x / ONE` scaled to `ONE`, for any `x`: the curve of
/// the fractional part, doubled or halved once for each whole octave.
pub open spec fn exp2(x: int) -> int {
    let octave = x / (ONE as int);
    let curve = exp2_fraction(x % (ONE as int));
    if octave >= 0 {
        curve * pow2(octave as nat)
    } else {
        curve / (pow2((-octave) as nat) as int)
    }
}

/// The frequency ratio, scaled to `ONE`, of a detune of `cents / ONE` cents.
pub open spec fn detune_ratio(cents: int) -> int {
    exp2(cents / (CENTS_PER_OCTAVE as int))
}

/// The half wave rises from zero to `ONE` at the quarter turn and mirrors
/// itself around it.
pub proof fn lemma_half_wave(x: int)
    requires
        0 <= x <= HALF_TURN_POINTS,
    ensures
        0 <= half_wave(x) <= ONE,
        half_wave(HALF_TURN_POINTS - x) == half_wave(x),
        half_wave(0) == 0,
        half_wave(HALF_TURN_POINTS as int / 2) == ONE,
{
    let h = HALF_TURN_POINTS as int;
    let u = x * (h - x);
    let denominator = 5 * h * h - 4 * u;
    assert(h * h == 0x4000_0000 && (h / 2) * (h - h / 2) == 0x1000_0000 && 0 * (h - 0) == 0)
        by (nonlinear_arith)
        requires
            h == 0x8000,
    ;
    assert(0 <= u && 4 * u <= h * h) by (nonlinear_arith)
        requires
            0 <= x <= h,
            u == x * (h - x),
    ;
    assert((h - x) * (h - (h - x)) == u) by (nonlinear_arith)
        requires
            u == x * (h - x),
    ;
    assert(5 * h * h == 5 * (h * h)) by (nonlinear_arith);
    assert(16 * ONE * u <= ONE * denominator);
    assert(half_wave(h / 2) == 16 * ONE * 0x1000_0000 / (5 * 0x4000_0000 - 4 * 0x1000_0000));
    assert(0x1_0000_0000_0000int / 0x1_0000_0000int == 0x1_0000);
    lemma_div_is_ordered(16 * ONE * u, ONE * denominator, denominator);
    lemma_div_multiples_vanish(ONE as int, denominator);
    lemma_div_pos_is_pos(16 * ONE * u, denominator);
    assert(ONE * denominator == denominator * ONE) by (nonlinear_arith);
}

/// The sine stays within `ONE` of zero, is zero at zero and at the half
/// turn, `ONE` at the quarter turn and minus `ONE` at three quarters, repeats
/// with every turn, and changes sign with every half turn.
pub proof fn lemma_sine(phase: int)
    ensures
        -ONE <= sine(phase) <= ONE,
        sine(0) == 0,
        sine(TURN as int / 4) == ONE,
        sine(TURN as int / 2) == 0,
        sine(3 * (TURN as int / 4)) == -ONE,
        sine(phase + TURN) == sine(phase),
        sine(phase + TURN / 2) == -sine(phase),
{
    let turn = TURN as int;
    let x = (phase % turn) / (GRAIN as int);
    if x < HALF_TURN_POINTS {
        lemma_half_wave(x);
    } else {
        lemma_half_wave(x - HALF_TURN_POINTS);
    }
    lemma_half_wave(0);
    assert((phase + turn) % turn == phase % turn) by {
        vstd::arithmetic::div_mod::lemma_mod_add_multiples_vanish(phase, turn);
    }
    let r = phase % turn;
    let q = phase / turn;
    let half = turn / 2;
    let grain = GRAIN as int;
    vstd::arithmetic::div_mod::lemma_fundamental_div_mod(phase, turn);
    if r < half {
        lemma_fundamental_div_mod_converse(phase + half, turn, q, r + half);
        assert((r + half) / grain == r / grain + HALF_TURN_POINTS);
    } else {
        assert(phase + half == (q + 1) * turn + (r - half)) by (nonlinear_arith)
            requires
                phase == turn * q + r,
                half + half == turn,
        ;
        lemma_fundamental_div_mod_converse(phase + half, turn, q + 1, r - half);
        assert((r - half) / grain == r / grain - HALF_TURN_POINTS);
    }
}

/// The curve of the fractional octave runs from `ONE` up to, and short of,
/// twice `ONE`.
pub proof fn lemma_exp2_fraction_bounded(fraction: int)
    requires
        0 <= fraction < ONE,
    ensures
        ONE <= exp2_fraction(fraction) < 2 * ONE,
        exp2_fraction(0) == ONE,
{
    let one = ONE as int;
    let square = EXP2_SQUARE + fraction * EXP2_CUBE / one;
    let linear = EXP2_LINEAR + fraction * square / one;
    assert(0 <= fraction * square <= one * square) by (nonlinear_arith)
        requires
            0 <= fraction < one,
            0 <= square,
    ;
    lemma_div_is_ordered(fraction * square, one * square, one);
    lemma_div_multiples_vanish(square, one);
    lemma_div_pos_is_pos(fraction * square, one);
    assert(0 <= fraction * linear <= fraction * one) by (nonlinear_arith)
        requires
            0 <= fraction,
            0 <= linear <= one,
    ;
    lemma_div_is_ordered(fraction * linear, fraction * one, one);
    lemma_div_multiples_vanish(fraction, one);
    assert(fraction * one == one * fraction) by (nonlinear_arith);
    lemma_div_pos_is_pos(fraction * linear, one);
}

/// No detune leaves the ratio at exactly `ONE`, and a detune of a whole
/// number of octaves doubles or halves it exactly.
pub proof fn lemma_detune_ratio_landmarks()
    ensures
        detune_ratio(0) == ONE,
        detune_ratio(1200 * ONE) == 2 * ONE,
        detune_ratio(-1200 * ONE) == ONE / 2,
{
    lemma2_to64();
    lemma_exp2_fraction_bounded(0);
    let one = ONE as int;
    assert(0int / one == 0 && 0int % one == 0);
    assert(one / one == 1 && one % one == 0);
    assert((-one) / one == -1 && (-one) % one == 0);
    assert(1200 * one / 1200 == one);
    assert(-1200 * one / 1200 == -one);
    assert(exp2(0) == one * pow2(0));
    assert(exp2(one) == one * pow2(1));
    assert(exp2(-one) == one / (pow2(1) as int));
}

/// The quotient and remainder of `a` by a positive `d`, with the remainder
/// never negative.
pub fn div_floor(a: i64, d: i64) -> (r: (i64, i64))
    requires
        d > 0,
        a > i64::MIN,
    ensures
        r.0 == a / d,
        r.1 == a % d,
        0 <= r.1 < d,
{
    if a >= 0 {
        (a / d, a % d)
    } else {
        let m: i64 = -a;
        let qm: i64 = m / d;
        let rm: i64 = m % d;
        proof {
            vstd::arithmetic::div_mod::lemma_fundamental_div_mod(m as int, d as int);
            vstd::arithmetic::div_mod::lemma_div_pos_is_pos(m as int, d as int);
        }
        if rm == 0 {
            proof {
                assert(a == (-qm) * d + 0) by (nonlinear_arith)
                    requires
                        -a == d * qm + rm,
                        rm == 0,
                ;
                lemma_fundamental_div_mod_converse(a as int, d as int, -qm as int, 0);
            }
            (-qm, 0)
        } else {
            proof {
                assert(a == (-qm - 1) * d + (d - rm)) by (nonlinear_arith)
                    requires
                        -a == d * qm + rm,
                ;
                lemma_fundamental_div_mod_converse(a as int, d as int, -qm - 1, d - rm);
            }
            (-qm - 1, d - rm)
        }
    }
}

/// The positive half of the sine wave at grid point `x`.
pub fn half_wave_at(x: u64) -> (r: u64)
    requires
        x <= HALF_TURN_POINTS,
    ensures
        r == half_wave(x as int),
        r <= ONE,
{
    proof {
        lemma_half_wave(x as int);
        assert(0 <= x * (0x8000 - x) <= 0x1000_0000) by (nonlinear_arith)
            requires
                0 <= x <= 0x8000,
        ;
        assert(5 * HALF_TURN_POINTS * HALF_TURN_POINTS == 0x1_4000_0000) by (nonlinear_arith)
            requires
                HALF_TURN_POINTS == 0x8000,
        ;
    }
    let u: u64 = x * (HALF_TURN_POINTS - x);
    let span: u64 = 5 * HALF_TURN_POINTS * HALF_TURN_POINTS;
    proof {
        assert(u <= 0x1000_0000 && 16 * 0x1_0000 * u <= 0x1_0000_0000_0000) by (nonlinear_arith)
            requires
                u == x * (0x8000 - x),
                0 <= x <= 0x8000,
        ;
    }
    16 * (ONE as u64) * u / (span - 4 * u)
}

/// The sine of `phase`, between minus `ONE` and `ONE`.
pub fn sine_of(phase: u64) -> (r: i32)
    ensures
        r == sine(phase as int),
        -ONE <= r <= ONE,
{
    let x: u64 = (phase % TURN) / GRAIN;
    if x < HALF_TURN_POINTS {
        half_wave_at(x) as i32
    } else {
        -(half_wave_at(x - HALF_TURN_POINTS) as i32)
    }
}

/// Two to the power of `fraction / ONE`, for a fraction below `ONE`.
pub fn exp2_fraction_of(fraction: u64) -> (r: u64)
    requires
        fraction < ONE,
    ensures
        r == exp2_fraction(fraction as int),
        ONE <= r < 2 * ONE,
{
    proof {
        lemma_exp2_fraction_bounded(fraction as int);
    }
    let one: u64 = ONE as u64;
    let square: u64 = EXP2_SQUARE + fraction * EXP2_CUBE / one;
    proof {
        assert(0 <= fraction * square <= 65536 * 65536) by (nonlinear_arith)
            requires
                0 <= fraction < 65536,
                0 <= square <= 65536,
        ;
    }
    let linear: u64 = EXP2_LINEAR + fraction * square / one;
    proof {
        assert(0 <= fraction * square <= one * square) by (nonlinear_arith)
            requires
                0 <= fraction < one,
                0 <= square,
        ;
        lemma_div_is_ordered((fraction * square) as int, (one * square) as int, one as int);
        lemma_div_multiples_vanish(square as int, one as int);
        assert(0 <= fraction * linear <= 65536 * 65536) by (nonlinear_arith)
            requires
                0 <= fraction < 65536,
                0 <= linear <= 65536,
        ;
    }
    one + fraction * linear / one
}

/// The frequency ratio of a detune of `cents / ONE` cents.
pub fn detune_ratio_of(cents: i32) -> (r: i64)
    ensures
        r == detune_ratio(cents as int),
        0 <= r < 0x1000_0000_0000,
{
    let (x, _) = div_floor(cents as i64, CENTS_PER_OCTAVE);
    let (octave, fraction) = div_floor(x, ONE as i64);
    let curve: u64 = exp2_fraction_of(fraction as u64);
    proof {
        lemma2_to64();
        assert(-28 <= octave <= 27);
    }
    if octave >= 0 {
        proof {
            if octave < 27 {
                lemma_pow2_strictly_increases(octave as nat, 27);
            }
            assert(curve * pow2(octave as nat) <= 0x1_ffff * 0x800_0000) by (nonlinear_arith)
                requires
                    0 <= curve <= 0x1_ffff,
                    0 <= pow2(octave as nat) <= 0x800_0000,
            ;
            lemma_u64_shl_is_mul(curve, octave as u64);
            assert(0 <= curve * pow2(octave as nat)) by (nonlinear_arith)
                requires
                    0 <= curve,
                    0 <= pow2(octave as nat),
            ;
        }
        (curve << (octave as u64)) as i64
    } else {
        proof {
            lemma_pow2_pos((-octave) as nat);
            lemma_u64_shr_is_div(curve, (-octave) as u64);
            lemma_div_is_ordered(0, curve as int, pow2((-octave) as nat) as int);
            vstd::arithmetic::div_mod::lemma_div_is_ordered_by_denominator(
                curve as int,
                1,
                pow2((-octave) as nat) as int,
            );
        }
        (curve >> ((-octave) as u64)) as i64
    }
}

} // verus!
