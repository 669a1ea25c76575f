//! The amplitude envelope: attack, decay, hold and release segments laid out
//! on the sample clock from the instant of the last trigger.

use crate::fixed::{
    ease, eased, frames_from_micros, frames_in, lemma_eased_bounded, lemma_eased_grows, micros_in,
    MAX_SPAN, MICROS_PER_SECOND, ONE,
};
use vstd::prelude::*;

verus! {

/// An envelope as plain numbers: where it starts on the sample clock, how
/// many samples each segment lasts, and the gain it holds between decay and
/// release.
pub struct Contour {
    pub start: int,
    pub attack: int,
    pub decay: int,
    pub hold: int,
    pub release: int,
    pub sustain: int,
    pub sample_rate: int,
}

impl Contour {
    /// The ranges that every envelope keeps its numbers in.
    pub open spec fn valid(self) -> bool {
        &&& 0 <= self.start <= u64::MAX
        &&& 0 <= self.attack < MAX_SPAN
        &&& 0 <= self.decay < MAX_SPAN
        &&& 0 <= self.hold < MAX_SPAN
        &&& 0 <= self.release < MAX_SPAN
        &&& 0 <= self.sustain <= ONE
        &&& 0 < self.sample_rate <= u32::MAX
    }

    /// Samples from the trigger to the end of the release.
    pub open spec fn duration(self) -> int {
        self.attack + self.decay + self.hold + self.release
    }

    /// The gain at sample `t`.
    ///
    /// Silent before the trigger and after the release. In between the gain
    /// eases in from zero to `ONE` over the attack, eases from `ONE` down to
    /// the sustain level over the decay, stays there through the hold, and
    /// eases down to zero over the release. A segment of no samples is
    /// stepped over, and an envelope that ends on a release of no samples
    /// ends at zero.
    pub open spec fn gain(self, t: int) -> int {
        let elapsed = t - self.start;
        let after_attack = elapsed - self.attack;
        let after_decay = after_attack - self.decay;
        let after_hold = after_decay - self.hold;
        if elapsed < 0 || elapsed > self.duration() {
            0
        } else if elapsed < self.attack {
            eased(ONE as int, elapsed, self.attack)
        } else if after_attack < self.decay {
            ONE - eased(ONE - self.sustain, after_attack, self.decay)
        } else if after_decay < self.hold {
            self.sustain
        } else if self.release == 0 {
            0
        } else {
            self.sustain - eased(self.sustain, after_hold, self.release)
        }
    }
}

/// The envelope generator of the voice.
#[derive(Debug)]
pub struct ADSR {
    start_time: u64,
    attack: u64,
    decay: u64,
    hold: u64,
    release: u64,
    sample_rate: u32,
    sustain: u32,
}

impl ADSR {
    /// The envelope as plain numbers.
    pub closed spec fn view(&self) -> Contour {
        Contour {
            start: self.start_time as int,
            attack: self.attack as int,
            decay: self.decay as int,
            hold: self.hold as int,
            release: self.release as int,
            sustain: self.sustain as int,
            sample_rate: self.sample_rate as int,
        }
    }

    /// Whether the envelope keeps its numbers in range; every constructor
    /// and method sees to it.
    pub open spec fn wf(&self) -> bool {
        self@.valid()
    }

    /// What a new envelope is: triggered at sample zero, with no attack,
    /// decay or hold, a release of a hundredth of a second, and a sustain
    /// level of `ONE`.
    pub open spec fn new_contour(sample_rate: int) -> Contour {
        Contour {
            start: 0,
            attack: 0,
            decay: 0,
            hold: 0,
            release: sample_rate / 100,
            sustain: ONE as int,
            sample_rate,
        }
    }

    /// A new envelope for a stream of `sample_rate` samples per second.
    pub fn new(sample_rate: u32) -> (envelope: ADSR)
        requires
            sample_rate > 0,
        ensures
            envelope.wf(),
            envelope@ == ADSR::new_contour(sample_rate as int),
    {
        ADSR {
            start_time: 0,
            attack: 0,
            decay: 0,
            hold: 0,
            release: (sample_rate / 100) as u64,
            sample_rate,
            sustain: ONE,
        }
    }

    /// The gain at sample `t`, between zero and `ONE`. Rendering changes nothing.
    pub fn render(&mut self, t: u64) -> (gain: u32)
        requires
            old(self).wf(),
        ensures
            *final(self) == *old(self),
            gain == old(self)@.gain(t as int),
            gain <= ONE,
    {
        if t < self.start_time {
            return 0;
        }
        let elapsed: u64 = t - self.start_time;
        if elapsed > self.duration() {
            return 0;
        }
        if elapsed < self.attack {
            return ease(ONE, elapsed, self.attack);
        }
        let after_attack: u64 = elapsed - self.attack;
        if after_attack < self.decay {
            return ONE - ease(ONE - self.sustain, after_attack, self.decay);
        }
        let after_decay: u64 = after_attack - self.decay;
        if after_decay < self.hold {
            return self.sustain;
        }
        let after_hold: u64 = after_decay - self.hold;
        if self.release == 0 {
            return 0;
        }
        self.sustain - ease(self.sustain, after_hold, self.release)
    }

    /// Sets the length of the attack to `attack` microseconds.
    pub fn set_attack(&mut self, attack: u32)
        requires
            old(self).wf(),
        ensures
            final(self).wf(),
            final(self)@ == (Contour {
                attack: frames_in(attack as int, old(self)@.sample_rate),
                ..old(self)@
            }),
    {
        self.attack = self.s2f(attack);
    }

    /// Sets the length of the decay to `decay` microseconds.
    pub fn set_decay(&mut self, decay: u32)
        requires
            old(self).wf(),
        ensures
            final(self).wf(),
            final(self)@ == (Contour {
                decay: frames_in(decay as int, old(self)@.sample_rate),
                ..old(self)@
            }),
    {
        self.decay = self.s2f(decay);
    }

    /// Sets the length of the hold to `hold` microseconds.
    pub fn set_hold(&mut self, hold: u32)
        requires
            old(self).wf(),
        ensures
            final(self).wf(),
            final(self)@ == (Contour {
                hold: frames_in(hold as int, old(self)@.sample_rate),
                ..old(self)@
            }),
    {
        self.hold = self.s2f(hold);
    }

    /// Sets the sustain level. A level above `ONE` is taken as `ONE`.
    pub fn set_sustain(&mut self, sustain: u32)
        requires
            old(self).wf(),
        ensures
            final(self).wf(),
            final(self)@ == (Contour {
                sustain: if sustain <= ONE { sustain as int } else { ONE as int },
                ..old(self)@
            }),
    {
        self.sustain = if sustain <= ONE { sustain } else { ONE };
    }

    /// Sets the length of the release to `release` microseconds.
    pub fn set_release(&mut self, release: u32)
        requires
            old(self).wf(),
        ensures
            final(self).wf(),
            final(self)@ == (Contour {
                release: frames_in(release as int, old(self)@.sample_rate),
                ..old(self)@
            }),
    {
        self.release = self.s2f(release);
    }

    /// Starts the envelope afresh at sample `time`, whatever it was doing.
    pub fn trigger(&mut self, time: u64)
        requires
            old(self).wf(),
        ensures
            final(self).wf(),
            final(self)@ == (Contour { start: time as int, ..old(self)@ }),
    {
        self.start_time = time;
    }

    /// The sample at which the envelope was last triggered.
    pub fn start_time(&self) -> (t: u64)
        ensures
            t == self@.start,
    {
        self.start_time
    }

    /// The length of the attack in samples.
    pub fn attack(&self) -> (samples: u64)
        ensures
            samples == self@.attack,
    {
        self.attack
    }

    /// The length of the decay in samples.
    pub fn decay(&self) -> (samples: u64)
        ensures
            samples == self@.decay,
    {
        self.decay
    }

    /// The length of the hold in samples.
    pub fn hold(&self) -> (samples: u64)
        ensures
            samples == self@.hold,
    {
        self.hold
    }

    /// The length of the release in samples.
    pub fn release(&self) -> (samples: u64)
        ensures
            samples == self@.release,
    {
        self.release
    }

    /// The sustain level.
    pub fn sustain(&self) -> (level: u32)
        ensures
            level == self@.sustain,
    {
        self.sustain
    }

    /// Samples from the trigger to the end of the release.
    pub fn duration(&self) -> (samples: u64)
        requires
            self.wf(),
        ensures
            samples == self@.duration(),
    {
        self.attack + self.decay + self.hold + self.release
    }

    /// Microseconds that `t` samples last, rounded down.
    pub fn f2s(&self, t: u64) -> (micros: u128)
        requires
            self.wf(),
        ensures
            micros == micros_in(t as int, self@.sample_rate),
    {
        proof {
            assert(t * 1_000_000 <= u64::MAX * 1_000_000) by (nonlinear_arith)
                requires
                    t <= u64::MAX,
            ;
        }
        (t as u128) * (MICROS_PER_SECOND as u128) / (self.sample_rate as u128)
    }

    /// Samples that pass in `s` microseconds, rounded down.
    pub fn s2f(&self, s: u32) -> (frames: u64)
        requires
            self.wf(),
        ensures
            frames == frames_in(s as int, self@.sample_rate),
            frames < MAX_SPAN,
    {
        frames_from_micros(s, self.sample_rate)
    }
}

/// An envelope is silent at every sample before its trigger and at every
/// sample after the end of its release.
pub proof fn lemma_silent_outside(contour: Contour, t: int)
    requires
        contour.valid(),
        t < contour.start || t > contour.start + contour.duration(),
    ensures
        contour.gain(t) == 0,
{
}

/// The gain stays between zero and `ONE`, and during the decay and the
/// release it stays between the sustain level and the level the segment
/// started from.
pub proof fn lemma_gain_bounded(contour: Contour, t: int)
    requires
        contour.valid(),
    ensures
        0 <= contour.gain(t) <= ONE,
        contour.start + contour.attack <= t < contour.start + contour.attack + contour.decay
            ==> contour.sustain <= contour.gain(t),
        contour.start + contour.attack + contour.decay + contour.hold <= t
            ==> contour.gain(t) <= contour.sustain,
{
    let elapsed = t - contour.start;
    let after_attack = elapsed - contour.attack;
    let after_hold = after_attack - contour.decay - contour.hold;
    if 0 <= elapsed <= contour.duration() {
        if elapsed < contour.attack {
            lemma_eased_bounded(ONE as int, elapsed, contour.attack);
        } else if after_attack < contour.decay {
            lemma_eased_bounded(ONE - contour.sustain, after_attack, contour.decay);
        } else if after_attack - contour.decay < contour.hold {
        } else if contour.release > 0 {
            lemma_eased_bounded(contour.sustain, after_hold, contour.release);
        }
    }
}

/// The gain never falls during the attack, and never rises from the end of
/// the attack to the end of the envelope.
pub proof fn lemma_gain_rises_then_falls(contour: Contour, earlier: int, later: int)
    requires
        contour.valid(),
        contour.start <= earlier <= later <= contour.start + contour.duration(),
    ensures
        later < contour.start + contour.attack ==> contour.gain(earlier) <= contour.gain(later),
        contour.start + contour.attack <= earlier ==> contour.gain(earlier) >= contour.gain(later),
{
    let attack_end = contour.start + contour.attack;
    let decay_end = attack_end + contour.decay;
    let hold_end = decay_end + contour.hold;
    if later < attack_end {
        lemma_eased_grows(
            ONE as int,
            earlier - contour.start,
            later - contour.start,
            contour.attack,
        );
    } else if attack_end <= earlier {
        lemma_gain_bounded(contour, earlier);
        lemma_gain_bounded(contour, later);
        if later < decay_end {
            lemma_eased_grows(
                ONE - contour.sustain,
                earlier - attack_end,
                later - attack_end,
                contour.decay,
            );
        } else if hold_end <= earlier && contour.release > 0 {
            lemma_eased_grows(
                contour.sustain,
                earlier - hold_end,
                later - hold_end,
                contour.release,
            );
        }
    }
}

/// At the trigger the gain is zero exactly when there is an attack to rise
/// through, or when what follows a missing attack starts from zero: no
/// decay, and then either a sustain level of zero or nothing at all.
pub proof fn lemma_gain_at_trigger(contour: Contour)
    requires
        contour.valid(),
    ensures
        contour.gain(contour.start) == 0 <==> (contour.attack > 0 || (contour.decay == 0 && (
            contour.sustain == 0 || (contour.hold == 0 && contour.release == 0)))),
{
    if contour.attack > 0 {
        lemma_eased_bounded(ONE as int, 0, contour.attack);
    } else if contour.decay > 0 {
        lemma_eased_bounded(ONE - contour.sustain, 0, contour.decay);
    } else if contour.hold == 0 && contour.release > 0 {
        lemma_eased_bounded(contour.sustain, 0, contour.release);
    }
}

/// At the end of the attack the gain is `ONE` exactly when a decay starts
/// there, or when the sustain level is `ONE` and a hold or a release starts
/// there.
pub proof fn lemma_gain_at_peak(contour: Contour)
    requires
        contour.valid(),
    ensures
        contour.gain(contour.start + contour.attack) == ONE <==> (contour.decay > 0 || (
            contour.sustain == ONE && (contour.hold > 0 || contour.release > 0))),
{
    if contour.decay > 0 {
        lemma_eased_bounded(ONE - contour.sustain, 0, contour.decay);
    } else if contour.hold == 0 && contour.release > 0 {
        lemma_eased_bounded(contour.sustain, 0, contour.release);
    }
}

/// At the end of the decay the gain is the sustain level exactly when a
/// hold or a release starts there, or when the sustain level is zero.
pub proof fn lemma_gain_after_decay(contour: Contour)
    requires
        contour.valid(),
    ensures
        contour.gain(contour.start + contour.attack + contour.decay) == contour.sustain <==> (
            contour.hold > 0 || contour.release > 0 || contour.sustain == 0),
{
    if contour.hold == 0 && contour.release > 0 {
        lemma_eased_bounded(contour.sustain, 0, contour.release);
    }
}

/// Through the whole of the hold the gain is the sustain level.
pub proof fn lemma_gain_in_hold(contour: Contour, t: int)
    requires
        contour.valid(),
        contour.start + contour.attack + contour.decay <= t,
        t < contour.start + contour.attack + contour.decay + contour.hold,
    ensures
        contour.gain(t) == contour.sustain,
{
}

/// At the last sample of the envelope the release has come all the way down
/// to zero.
pub proof fn lemma_silent_at_end(contour: Contour)
    requires
        contour.valid(),
    ensures
        contour.gain(contour.start + contour.duration()) == 0,
{
    if contour.release > 0 {
        lemma_eased_bounded(contour.sustain, contour.release, contour.release);
    }
}

} // verus!
