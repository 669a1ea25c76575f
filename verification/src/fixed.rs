//! Units shared by the whole voice and the arithmetic that converts between them.

use vstd::prelude::*;

verus! {

/// Unity in 16.16 fixed point: a gain of one, a frequency of one hertz, one cent.
pub const ONE: u32 = 65536;

/// Microseconds in a second.
pub const MICROS_PER_SECOND: u32 = 1_000_000;

/// An upper bound, in samples, on every duration that fits in a `u32` of
/// microseconds at a sample rate that fits in a `u32`.
pub const MAX_SPAN: u64 = 0x2000_0000_0000;

/// The whole number of samples that pass in `micros` microseconds at
/// `sample_rate` samples per second.
pub open spec fn frames_in(micros: int, sample_rate: int) -> int {
    micros * sample_rate / 1_000_000
}

/// The whole number of microseconds that `frames` samples last at
/// `sample_rate` samples per second.
pub open spec fn micros_in(frames: int, sample_rate: int) -> int {
    frames * 1_000_000 / sample_rate
}

/// `depth` scaled by the square of `elapsed / span`, rounded down: the
/// ease-in curve `x * x` applied to the fraction of a segment that has passed.
pub open spec fn eased(depth: int, elapsed: int, span: int) -> int {
    depth * (elapsed * elapsed) / (span * span)
}

/// Every `u32` duration at every `u32` sample rate lasts fewer than `MAX_SPAN` samples.
pub proof fn lemma_frames_in_bounded(micros: int, sample_rate: int)
    requires
        0 <= micros <= u32::MAX,
        0 <= sample_rate <= u32::MAX,
    ensures
        0 <= frames_in(micros, sample_rate) < MAX_SPAN,
        micros * sample_rate <= u64::MAX,
{
    assert(0 <= micros * sample_rate <= 0xffff_ffff * 0xffff_ffff) by (nonlinear_arith)
        requires
            0 <= micros <= 0xffff_ffff,
            0 <= sample_rate <= 0xffff_ffff,
    ;
}

/// The eased value never exceeds its depth while `elapsed` stays within the span.
pub proof fn lemma_eased_bounded(depth: int, elapsed: int, span: int)
    requires
        0 <= depth,
        0 <= elapsed <= span,
        0 < span,
    ensures
        0 <= eased(depth, elapsed, span) <= depth,
        elapsed == 0 ==> eased(depth, elapsed, span) == 0,
        elapsed == span ==> eased(depth, elapsed, span) == depth,
{
    let e2 = elapsed * elapsed;
    let s2 = span * span;
    assert(0 <= e2 <= s2 && 0 < s2) by (nonlinear_arith)
        requires
            0 <= elapsed <= span,
            0 < span,
            e2 == elapsed * elapsed,
            s2 == span * span,
    ;
    assert(0 <= depth * e2 <= depth * s2) by (nonlinear_arith)
        requires
            0 <= depth,
            0 <= e2 <= s2,
    ;
    vstd::arithmetic::div_mod::lemma_div_is_ordered(depth * e2, depth * s2, s2);
    vstd::arithmetic::div_mod::lemma_div_multiples_vanish(depth, s2);
    vstd::arithmetic::div_mod::lemma_div_pos_is_pos(depth * e2, s2);
    assert(depth * s2 == s2 * depth) by (nonlinear_arith);
    if elapsed == 0 {
        assert(depth * e2 == 0) by (nonlinear_arith)
            requires
                e2 == 0,
        ;
    }
}

/// The eased value grows with the time elapsed.
pub proof fn lemma_eased_grows(depth: int, earlier: int, later: int, span: int)
    requires
        0 <= depth,
        0 <= earlier <= later,
        0 < span,
    ensures
        eased(depth, earlier, span) <= eased(depth, later, span),
{
    assert(depth * (earlier * earlier) <= depth * (later * later) && 0 < span * span)
        by (nonlinear_arith)
        requires
            0 <= depth,
            0 <= earlier <= later,
            0 < span,
    ;
    vstd::arithmetic::div_mod::lemma_div_is_ordered(
        depth * (earlier * earlier),
        depth * (later * later),
        span * span,
    );
}

/// Samples in `micros` microseconds at `sample_rate`, rounded down.
pub fn frames_from_micros(micros: u32, sample_rate: u32) -> (frames: u64)
    ensures
        frames == frames_in(micros as int, sample_rate as int),
        frames < MAX_SPAN,
{
    proof {
        lemma_frames_in_bounded(micros as int, sample_rate as int);
    }
    (micros as u64) * (sample_rate as u64) / (MICROS_PER_SECOND as u64)
}

/// `depth` eased over `elapsed` of `span` samples, rounded down.
pub fn ease(depth: u32, elapsed: u64, span: u64) -> (r: u32)
    requires
        depth <= ONE,
        elapsed <= span,
        0 < span < MAX_SPAN,
    ensures
        r == eased(depth as int, elapsed as int, span as int),
        r <= depth,
{
    proof {
        lemma_eased_bounded(depth as int, elapsed as int, span as int);
        assert(elapsed * elapsed <= span * span < 0x2000_0000_0000 * 0x2000_0000_0000
            && 0 < span * span) by (nonlinear_arith)
            requires
                0 <= elapsed <= span,
                0 < span < 0x2000_0000_0000,
        ;
        assert(depth * (elapsed * elapsed) <= 65536 * (0x2000_0000_0000 * 0x2000_0000_0000))
            by (nonlinear_arith)
            requires
                0 <= depth <= 65536,
                0 <= elapsed * elapsed <= 0x2000_0000_0000 * 0x2000_0000_0000,
        ;
    }
    let e2: u128 = (elapsed as u128) * (elapsed as u128);
    let s2: u128 = (span as u128) * (span as u128);
    let q: u128 = (depth as u128) * e2 / s2;
    q as u32
}

} // verus!
