//! A sine oscillator that accumulates phase: each sample it reads its
//! frequency and detune, emits the sine of its phase, and moves the phase on.

use crate::fixed::ONE;
use crate::param::{Glide, Param};
use crate::wave::{detune_ratio, detune_ratio_of, sine, sine_of, TURN};
use vstd::prelude::*;

verus! {

/// The frequency that a new oscillator starts on: 440 hertz.
pub const CONCERT_PITCH: i32 = 440 * 65536;

/// The frequency at which the oscillator turns, scaled to `ONE`: the
/// frequency parameter plus the ratio that the detune parameter stands for.
pub open spec fn effective_frequency(frequency: int, detune: int) -> int {
    frequency + detune_ratio(detune)
}

/// Phase units per sample at `frequency / ONE` hertz and `sample_rate`
/// samples per second, rounded towards zero. A negative frequency turns the
/// phase backwards.
pub open spec fn phase_step(frequency: int, sample_rate: int) -> int {
    if frequency >= 0 {
        TURN * frequency / (ONE * sample_rate)
    } else {
        -(TURN * (-frequency) / (ONE * sample_rate))
    }
}

/// The phase after a step, brought back into its turn: a phase that has run
/// past the end of the turn has one turn taken off, and a phase that is
/// still outside the turn after that, which only a degenerate frequency or a
/// phase set from outside can cause, starts again from zero.
pub open spec fn next_phase(phase: int, step: int) -> int {
    let moved = phase + step;
    if 0 <= moved < TURN {
        moved
    } else if TURN <= moved < 2 * TURN {
        moved - TURN
    } else {
        0
    }
}

/// An oscillator as plain numbers.
pub struct Rotor {
    pub phase: int,
    pub sample_rate: int,
    pub frequency: Glide,
    pub detune: Glide,
}

impl Rotor {
    /// The ranges that every oscillator keeps its numbers in.
    pub open spec fn valid(self) -> bool {
        &&& 0 <= self.phase <= u64::MAX
        &&& 0 < self.sample_rate <= u32::MAX
        &&& self.frequency.valid()
        &&& self.detune.valid()
    }

    /// The sample that rendering emits: the sine of the phase.
    pub open spec fn sample(self) -> int {
        sine(self.phase)
    }

    /// The oscillator after rendering one sample: both parameters one sample
    /// further along their glides, and the phase moved on by the step of the
    /// frequency they then give.
    pub open spec fn rendered(self) -> Rotor {
        let frequency = self.frequency.advanced();
        let detune = self.detune.advanced();
        let turning = effective_frequency(frequency.current(), detune.current());
        Rotor {
            phase: next_phase(self.phase, phase_step(turning, self.sample_rate)),
            sample_rate: self.sample_rate,
            frequency,
            detune,
        }
    }
}

/// A phase-accumulating sine oscillator.
#[derive(Debug)]
pub struct Oscillator {
    phase: u64,
    sample_rate: u32,
    frequency: Param,
    detune: Param,
}

/// Phase units per sample at `frequency / ONE` hertz.
pub fn phase_step_of(frequency: i64, sample_rate: u32) -> (step: i64)
    requires
        -0x4000_0000_0000 <= frequency <= 0x4000_0000_0000,
        sample_rate > 0,
    ensures
        step == phase_step(frequency as int, sample_rate as int),
        -0x4000_0000_0000_0000 <= step <= 0x4000_0000_0000_0000,
{
    let magnitude: u64 = if frequency >= 0 {
        frequency as u64
    } else {
        (-frequency) as u64
    };
    proof {
        assert(0x1_0000 <= ONE * sample_rate <= 0x1_0000 * 0xffff_ffff) by (nonlinear_arith)
            requires
                ONE == 0x1_0000,
                0 < sample_rate <= 0xffff_ffff,
        ;
    }
    let divisor: u64 = (ONE as u64) * (sample_rate as u64);
    proof {
        assert(TURN * magnitude <= 0x1_0000_0000 * 0x4000_0000_0000) by (nonlinear_arith)
            requires
                TURN == 0x1_0000_0000,
                0 <= magnitude <= 0x4000_0000_0000,
        ;
        assert(divisor >= 0x1_0000);
        vstd::arithmetic::div_mod::lemma_div_is_ordered_by_denominator(
            TURN * magnitude,
            0x1_0000,
            divisor as int,
        );
        vstd::arithmetic::div_mod::lemma_div_pos_is_pos(TURN * magnitude, divisor as int);
    }
    let turned: u128 = (TURN as u128) * (magnitude as u128) / (divisor as u128);
    if frequency >= 0 {
        turned as i64
    } else {
        -(turned as i64)
    }
}

/// The phase after a step, brought back into its turn.
pub fn wrap_phase(phase: u64, step: i64) -> (next: u64)
    ensures
        next == next_phase(phase as int, step as int),
        next < TURN,
{
    let moved: i128 = phase as i128 + step as i128;
    if 0 <= moved && moved < TURN as i128 {
        moved as u64
    } else if TURN as i128 <= moved && moved < 2 * (TURN as i128) {
        (moved - TURN as i128) as u64
    } else {
        0
    }
}

impl Oscillator {
    /// The oscillator as plain numbers.
    pub closed spec fn view(&self) -> Rotor {
        Rotor {
            phase: self.phase as int,
            sample_rate: self.sample_rate as int,
            frequency: self.frequency@,
            detune: self.detune@,
        }
    }

    /// Whether the oscillator keeps its numbers in range; every constructor
    /// and method sees to it.
    pub open spec fn wf(&self) -> bool {
        self@.valid()
    }

    /// What a new oscillator is: at phase zero, at rest on 440 hertz, with
    /// no detune.
    pub open spec fn new_rotor(sample_rate: int) -> Rotor {
        Rotor {
            phase: 0,
            sample_rate,
            frequency: Param::new_glide(sample_rate, CONCERT_PITCH as int),
            detune: Param::new_glide(sample_rate, 0),
        }
    }

    /// A new oscillator for a stream of `sample_rate` samples per second.
    pub fn new(sample_rate: u32) -> (oscillator: Oscillator)
        requires
            sample_rate > 0,
        ensures
            oscillator.wf(),
            oscillator@ == Oscillator::new_rotor(sample_rate as int),
    {
        Oscillator {
            phase: 0,
            frequency: Param::new(sample_rate, CONCERT_PITCH),
            sample_rate,
            detune: Param::new(sample_rate, 0),
        }
    }

    /// Emits the sample at the present phase and moves the oscillator on by
    /// one sample; the phase ends within its turn.
    pub fn render(&mut self, _t: u64) -> (sample: i32)
        requires
            old(self).wf(),
        ensures
            final(self).wf(),
            final(self)@ == old(self)@.rendered(),
            sample == old(self)@.sample(),
            -ONE <= sample <= ONE,
            0 <= final(self)@.phase < TURN,
    {
        let frequency: i32 = self.frequency.value();
        let detune: i32 = self.detune.value();
        let turning: i64 = frequency as i64 + detune_ratio_of(detune);
        let step: i64 = phase_step_of(turning, self.sample_rate);
        let sample: i32 = sine_of(self.phase);
        self.phase = wrap_phase(self.phase, step);
        sample
    }

    /// Starts a glide of the frequency towards `frequency / ONE` hertz.
    pub fn set_frequency(&mut self, frequency: i32)
        requires
            old(self).wf(),
        ensures
            final(self).wf(),
            final(self)@ == (Rotor {
                frequency: old(self)@.frequency.towards(frequency as int),
                ..old(self)@
            }),
    {
        self.frequency.set_value(frequency);
    }

    /// Puts the frequency at `frequency / ONE` hertz at once, with no glide.
    pub fn set_frequency_no_smooth(&mut self, frequency: i32)
        requires
            old(self).wf(),
        ensures
            final(self).wf(),
            final(self)@ == (Rotor {
                frequency: old(self)@.frequency.resting_on(frequency as int),
                ..old(self)@
            }),
    {
        self.frequency.set_value_no_smooth(frequency);
    }

    /// Starts a glide of the detune towards `detune / ONE` cents.
    pub fn set_detune(&mut self, detune: i32)
        requires
            old(self).wf(),
        ensures
            final(self).wf(),
            final(self)@ == (Rotor {
                detune: old(self)@.detune.towards(detune as int),
                ..old(self)@
            }),
    {
        self.detune.set_value(detune);
    }

    /// The phase, in phase units.
    pub fn phase(&self) -> (phase: u64)
        ensures
            phase == self@.phase,
    {
        self.phase
    }

    /// The frequency parameter.
    pub fn frequency(&self) -> (param: &Param)
        ensures
            param@ == self@.frequency,
    {
        &self.frequency
    }

    /// The detune parameter.
    pub fn detune(&self) -> (param: &Param)
        ensures
            param@ == self@.detune,
    {
        &self.detune
    }

    /// Puts the phase at `phase` phase units. A phase outside the turn
    /// sounds as the same phase within it.
    pub fn set_phase(&mut self, phase: u64)
        requires
            old(self).wf(),
        ensures
            final(self).wf(),
            final(self)@ == (Rotor { phase: phase as int, ..old(self)@ }),
    {
        self.phase = phase;
    }
}

/// Whatever the phase, the frequency and the detune of an oscillator are,
/// rendering leaves its phase within the turn.
pub proof fn lemma_rendered_phase_in_turn(rotor: Rotor)
    ensures
        0 <= rotor.rendered().phase < TURN,
{
}

/// While the phase and its step stay within a turn of each other, rendering
/// moves the phase by the step and takes whole turns off: nothing is lost
/// but the turns.
pub proof fn lemma_phase_advances(phase: int, step: int)
    requires
        0 <= phase < TURN,
        0 <= step < TURN,
    ensures
        next_phase(phase, step) == (phase + step) % (TURN as int),
{
}

} // verus!
