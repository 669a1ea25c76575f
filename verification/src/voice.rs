//! The voice: a modulator oscillator that drives the frequency of a carrier
//! oscillator, shaped by the envelope, rendered one block at a time inside
//! the audio callback.

use crate::channel::{ParameterUpdate, UpdateReceiver};
use crate::clock::SampleClock;
use crate::envelope::{Contour, ADSR};
use crate::fixed::{frames_in, ONE};
use crate::oscillator::{Oscillator, Rotor};
use audio_clock::ClockConsumer;
use vstd::prelude::*;

verus! {

/// The carrier swings between zero and twice this many hertz.
pub const MODULATION_DEPTH: i32 = 100;

/// One frame of output: the same sample on the left and on the right.
#[derive(Clone, Copy, Debug, PartialEq, Eq, Structural)]
pub struct StereoFrame {
    pub l: i32,
    pub r: i32,
}

/// `sample` scaled by `gain / ONE`, rounded towards zero.
pub open spec fn scaled(gain: int, sample: int) -> int {
    if sample >= 0 {
        gain * sample / (ONE as int)
    } else {
        -(gain * (-sample) / (ONE as int))
    }
}

/// The carrier frequency, in hertz scaled to `ONE`, that a modulator sample
/// calls for: the sample's range from minus `ONE` to `ONE` laid onto zero to
/// two hundred hertz.
pub open spec fn modulated_frequency(sample: int) -> int {
    (sample + ONE) * MODULATION_DEPTH
}

/// The voice as plain numbers.
pub struct Voice {
    pub envelope: Contour,
    pub carrier: Rotor,
    pub modulator: Rotor,
    pub sample_rate: int,
}

impl Voice {
    /// The ranges that every voice keeps its numbers in.
    pub open spec fn valid(self) -> bool {
        &&& self.envelope.valid()
        &&& self.carrier.valid()
        &&& self.modulator.valid()
        &&& 0 < self.sample_rate <= u32::MAX
    }

    /// The voice after `update` has been applied: the one parameter that the
    /// update names has its new value, and nothing else has changed.
    pub open spec fn applied(self, update: ParameterUpdate) -> Voice {
        match update {
            ParameterUpdate::CarrierFrequency(hertz) => Voice {
                carrier: Rotor {
                    frequency: self.carrier.frequency.towards(hertz as int),
                    ..self.carrier
                },
                ..self
            },
            ParameterUpdate::ModulatorFrequency(hertz) => Voice {
                modulator: Rotor {
                    frequency: self.modulator.frequency.towards(hertz as int),
                    ..self.modulator
                },
                ..self
            },
            ParameterUpdate::Attack(micros) => Voice {
                envelope: Contour {
                    attack: frames_in(micros as int, self.envelope.sample_rate),
                    ..self.envelope
                },
                ..self
            },
            ParameterUpdate::Release(micros) => Voice {
                envelope: Contour {
                    release: frames_in(micros as int, self.envelope.sample_rate),
                    ..self.envelope
                },
                ..self
            },
        }
    }

    /// The voice after an update has been popped, or none has.
    pub open spec fn received(self, update: Option<ParameterUpdate>) -> Voice {
        match update {
            Some(update) => self.applied(update),
            None => self,
        }
    }

    /// The envelope in force at sample `t`: triggered afresh if `t` is a
    /// whole number of seconds, and as it was if not.
    pub open spec fn envelope_at(self, t: int) -> Contour {
        if t % self.sample_rate == 0 {
            Contour { start: t, ..self.envelope }
        } else {
            self.envelope
        }
    }

    /// The carrier at the moment it renders its sample: at rest on the
    /// frequency that the modulator's sample calls for.
    pub open spec fn driven_carrier(self) -> Rotor {
        Rotor {
            frequency: self.carrier.frequency.resting_on(
                modulated_frequency(self.modulator.sample()),
            ),
            ..self.carrier
        }
    }

    /// The sample that the voice puts out at sample `t`: the carrier's
    /// sample scaled by the envelope's gain.
    pub open spec fn output(self, t: int) -> int {
        scaled(self.envelope_at(t).gain(t), self.driven_carrier().sample())
    }

    /// The voice after rendering the frame at sample `t`.
    pub open spec fn after_frame(self, t: int) -> Voice {
        Voice {
            envelope: self.envelope_at(t),
            carrier: self.driven_carrier().rendered(),
            modulator: self.modulator.rendered(),
            sample_rate: self.sample_rate,
        }
    }

    /// The voice after rendering one frame at each of `times`, in order.
    pub open spec fn after_frames(self, times: Seq<int>) -> Voice
        decreases times.len(),
    {
        if times.len() == 0 {
            self
        } else {
            self.after_frames(times.drop_last()).after_frame(times.last())
        }
    }

    /// The sample indices of a block of `frames` frames that starts when
    /// the clock has counted `counted` frames: one after the other from
    /// `counted` on.
    pub open spec fn block_times(counted: nat, frames: nat) -> Seq<int> {
        Seq::new(frames, |i: int| counted + i)
    }

    /// Whether `frames` and `after` are the block that this voice renders
    /// when `update` is what it pops and `times` are the sample indices that
    /// its clock shows, frame after frame: the update is applied first, and
    /// each frame carries, on both channels, the output of the voice as the
    /// frames before it have left it. It is opaque, to be revealed where
    /// a proof needs what it says of the frames.
    #[verifier::opaque]
    pub open spec fn renders(
        self,
        update: Option<ParameterUpdate>,
        times: Seq<int>,
        frames: Seq<StereoFrame>,
        after: Voice,
    ) -> bool {
        let start = self.received(update);
        &&& frames.len() == times.len()
        &&& after == start.after_frames(times)
        &&& forall|i: int|
            0 <= i < times.len() ==> {
                &&& 0 <= #[trigger] times[i] <= u64::MAX
                &&& frames[i].l == start.after_frames(times.take(i)).output(times[i])
                &&& frames[i].r == frames[i].l
            }
    }
}

/// `sample` scaled by `gain / ONE`.
pub fn scale(gain: u32, sample: i32) -> (r: i32)
    requires
        gain <= ONE,
        -ONE <= sample <= ONE,
    ensures
        r == scaled(gain as int, sample as int),
        -ONE <= r <= ONE,
{
    let magnitude: u64 = if sample >= 0 {
        sample as u64
    } else {
        (-sample) as u64
    };
    proof {
        assert(0 <= gain * magnitude <= 0x1_0000 * 0x1_0000) by (nonlinear_arith)
            requires
                0 <= gain <= 0x1_0000,
                0 <= magnitude <= 0x1_0000,
        ;
        assert(gain * magnitude / (ONE as int) <= ONE);
    }
    let product: u64 = (gain as u64) * magnitude / (ONE as u64);
    if sample >= 0 {
        product as i32
    } else {
        -(product as i32)
    }
}

/// The single voice of the synthesizer, with all the state that the audio
/// thread owns.
pub struct VoiceRenderer {
    envelope: ADSR,
    carrier: Oscillator,
    modulator: Oscillator,
    clock: SampleClock,
    sample_rate: u32,
}

impl VoiceRenderer {
    /// The voice as plain numbers.
    pub closed spec fn view(&self) -> Voice {
        Voice {
            envelope: self.envelope@,
            carrier: self.carrier@,
            modulator: self.modulator@,
            sample_rate: self.sample_rate as int,
        }
    }

    /// The number of frames that the voice's clock has counted.
    pub closed spec fn frames_counted(&self) -> nat {
        self.clock.counted()
    }

    /// Whether the voice's clock is in order.
    pub closed spec fn clock_wf(&self) -> bool {
        self.clock.wf()
    }

    /// Whether the voice keeps its numbers in range and its clock in order;
    /// every constructor and method sees to it.
    pub open spec fn wf(&self) -> bool {
        self@.valid() && self.clock_wf()
    }

    /// A voice for a stream of `sample_rate` samples per second: a new
    /// envelope, two new oscillators, and a new clock, at zero, with a tempo
    /// of `tempo` beats per minute.
    pub fn new(sample_rate: u32, tempo: u16) -> (voice: VoiceRenderer)
        requires
            sample_rate > 0,
        ensures
            voice.wf(),
            voice@.sample_rate == sample_rate,
            voice@.envelope == ADSR::new_contour(sample_rate as int),
            voice@.carrier == Oscillator::new_rotor(sample_rate as int),
            voice@.modulator == Oscillator::new_rotor(sample_rate as int),
            voice.frames_counted() == 0,
    {
        VoiceRenderer::with_clock(sample_rate, SampleClock::new(tempo, sample_rate))
    }

    /// A voice for a stream of `sample_rate` samples per second that goes
    /// on from where `clock` stands: a new envelope and two new oscillators.
    pub fn with_clock(sample_rate: u32, clock: SampleClock) -> (voice: VoiceRenderer)
        requires
            sample_rate > 0,
            clock.wf(),
        ensures
            voice.wf(),
            voice@.sample_rate == sample_rate,
            voice@.envelope == ADSR::new_contour(sample_rate as int),
            voice@.carrier == Oscillator::new_rotor(sample_rate as int),
            voice@.modulator == Oscillator::new_rotor(sample_rate as int),
            voice.frames_counted() == clock.counted(),
    {
        VoiceRenderer {
            envelope: ADSR::new(sample_rate),
            carrier: Oscillator::new(sample_rate),
            modulator: Oscillator::new(sample_rate),
            clock,
            sample_rate,
        }
    }

    /// The sample index of the next frame: the number of frames that the
    /// voice has rendered in blocks so far.
    pub fn now(&self) -> (t: u64)
        requires
            self.wf(),
        ensures
            t == self.frames_counted(),
            t <= usize::MAX,
    {
        self.clock.now()
    }

    /// A reading end of the voice's clock for another thread.
    pub fn clock_reader(&self) -> (reader: ClockConsumer)
        requires
            self.wf(),
    {
        self.clock.reader()
    }

    /// The envelope of the voice.
    pub fn envelope(&self) -> (envelope: &ADSR)
        ensures
            envelope@ == self@.envelope,
    {
        &self.envelope
    }

    /// The carrier oscillator.
    pub fn carrier(&self) -> (carrier: &Oscillator)
        ensures
            carrier@ == self@.carrier,
    {
        &self.carrier
    }

    /// The modulator oscillator.
    pub fn modulator(&self) -> (modulator: &Oscillator)
        ensures
            modulator@ == self@.modulator,
    {
        &self.modulator
    }

    /// Applies one parameter update to the part of the voice that it names.
    pub fn apply(&mut self, update: ParameterUpdate)
        requires
            old(self).wf(),
        ensures
            final(self).wf(),
            final(self)@ == old(self)@.applied(update),
            final(self).frames_counted() == old(self).frames_counted(),
    {
        match update {
            ParameterUpdate::CarrierFrequency(hertz) => {
                self.carrier.set_frequency(hertz);
            },
            ParameterUpdate::ModulatorFrequency(hertz) => {
                self.modulator.set_frequency(hertz);
            },
            ParameterUpdate::Attack(micros) => {
                self.envelope.set_attack(micros);
            },
            ParameterUpdate::Release(micros) => {
                self.envelope.set_release(micros);
            },
        }
    }

    /// Renders the frame at sample `t`: triggers the envelope if `t` is a
    /// whole number of seconds, lets the modulator set the carrier's
    /// frequency, and puts the carrier's sample, scaled by the envelope, on
    /// both channels.
    pub fn render_frame(&mut self, t: u64) -> (frame: StereoFrame)
        requires
            old(self).wf(),
        ensures
            final(self).wf(),
            final(self)@ == old(self)@.after_frame(t as int),
            final(self).frames_counted() == old(self).frames_counted(),
            frame.l == old(self)@.output(t as int),
            frame.r == frame.l,
            -ONE <= frame.l <= ONE,
    {
        if t % (self.sample_rate as u64) == 0 {
            self.envelope.trigger(t);
        }
        let modulation: i32 = self.modulator.render(t);
        self.carrier.set_frequency_no_smooth((modulation + ONE as i32) * MODULATION_DEPTH);
        let gain: u32 = self.envelope.render(t);
        let sample: i32 = self.carrier.render(t);
        let out: i32 = scale(gain, sample);
        StereoFrame { l: out, r: out }
    }

    /// Renders one block, given what the channel had for it: applies
    /// `update`, if there is one, then fills every frame of `out`, each at
    /// the sample index that the clock shows, and counts it on the clock.
    /// Returns the number of frames written, which is all of them.
    ///
    /// The clock shows the frames counted so far, so the block is the one
    /// that `renders` describes for the sample indices from that count on.
    pub fn render_block(
        &mut self,
        update: Option<ParameterUpdate>,
        out: &mut Vec<StereoFrame>,
    ) -> (written: usize)
        requires
            old(self).wf(),
            old(self).frames_counted() + old(out).len() <= usize::MAX,
        ensures
            final(self).wf(),
            written == old(out).len(),
            final(out).len() == old(out).len(),
            final(self).frames_counted() == old(self).frames_counted() + old(out).len(),
            old(self)@.renders(
                update,
                Voice::block_times(old(self).frames_counted(), old(out).len() as nat),
                final(out)@,
                final(self)@,
            ),
            forall|i: int|
                0 <= i < final(out).len() ==> -ONE <= (#[trigger] final(out)[i]).l <= ONE,
    {
        match update {
            Some(update) => {
                self.apply(update);
            },
            None => {},
        }
        let ghost start: Voice = self@;
        let ghost times: Seq<int> = Voice::block_times(
            old(self).frames_counted(),
            old(out).len() as nat,
        );
        let frames: usize = out.len();
        let mut i: usize = 0;
        while i < frames
            invariant
                self.wf(),
                i <= frames,
                out.len() == frames,
                frames == old(out).len(),
                times == Voice::block_times(old(self).frames_counted(), frames as nat),
                self.frames_counted() == old(self).frames_counted() + i,
                old(self).frames_counted() + frames <= usize::MAX,
                self@ == start.after_frames(times.take(i as int)),
                forall|j: int|
                    0 <= j < i ==> {
                        &&& (#[trigger] out[j]).l == start.after_frames(times.take(j)).output(
                            times[j],
                        )
                        &&& out[j].r == out[j].l
                        &&& -ONE <= out[j].l <= ONE
                    },
            decreases frames - i,
        {
            proof {
                assert(times.take(0) =~= Seq::<int>::empty());
                assert(times.take(i + 1).drop_last() =~= times.take(i as int));
                assert(times.take(i + 1).last() == times[i as int]);
            }
            let t: u64 = self.clock.now();
            let frame: StereoFrame = self.render_frame(t);
            out.set(i, frame);
            self.clock.advance(1);
            i = i + 1;
        }
        proof {
            reveal(Voice::renders);
            assert(times.take(frames as int) =~= times);
        }
        frames
    }

    /// The body of the audio callback: pops at most one update from the
    /// channel and renders one block with it. Returns the number of frames
    /// written: all of them, or none where the clock cannot count so many
    /// more, in which case nothing is popped and nothing changes.
    ///
    /// Which update arrives, if any, is up to the thread that pushes, so the
    /// block is stated for whatever arrived: it is the block that `renders`
    /// describes for some update, or none.
    pub fn process_block(
        &mut self,
        updates: &mut UpdateReceiver,
        out: &mut Vec<StereoFrame>,
    ) -> (written: usize)
        requires
            old(self).wf(),
        ensures
            final(self).wf(),
            final(updates).spec_capacity() == old(updates).spec_capacity(),
            final(updates).at_parting() == old(updates).at_parting(),
            old(self).frames_counted() + old(out).len() <= usize::MAX ==> {
                &&& written == old(out).len()
                &&& final(self).frames_counted() == old(self).frames_counted() + old(out).len()
                &&& exists|update: Option<ParameterUpdate>| #[trigger]
                    old(self)@.renders(
                        update,
                        Voice::block_times(old(self).frames_counted(), old(out).len() as nat),
                        final(out)@,
                        final(self)@,
                    )
            },
            old(self).frames_counted() + old(out).len() > usize::MAX ==> {
                &&& written == 0
                &&& final(self).frames_counted() == old(self).frames_counted()
                &&& final(self)@ == old(self)@
                &&& final(out)@ == old(out)@
            },
    {
        let counted: u64 = self.clock.now();
        if out.len() > usize::MAX - (counted as usize) {
            return 0;
        }
        let update: Option<ParameterUpdate> = updates.try_pop();
        self.render_block(update, out)
    }
}

/// The voice is silent at every sample at which its envelope is: before the
/// envelope in force starts and after it ends.
pub proof fn lemma_silent_while_envelope_is(voice: Voice, t: int)
    requires
        voice.valid(),
        voice.envelope_at(t).gain(t) == 0,
    ensures
        voice.output(t) == 0,
{
    let sample = voice.driven_carrier().sample();
    assert(0 * sample == 0 && 0 * (-sample) == 0) by (nonlinear_arith);
}

/// A block of no frames does what its update does and nothing more.
pub proof fn lemma_empty_block(
    voice: Voice,
    update: Option<ParameterUpdate>,
    times: Seq<int>,
    after: Voice,
)
    requires
        voice.renders(update, times, Seq::<StereoFrame>::empty(), after),
    ensures
        after == voice.received(update),
{
    reveal(Voice::renders);
    assert(times =~= Seq::<int>::empty());
}

} // verus!
