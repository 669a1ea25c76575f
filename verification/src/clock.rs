//! The sample clock: the count of frames rendered since the stream began,
//! advanced by the audio thread and readable from every thread.

use audio_clock::{audio_clock, ClockConsumer, ClockUpdater};
use vstd::prelude::*;

verus! {

/// `audio_clock::ClockUpdater`, the writing end of a clock, taken as it is.
#[verifier::external_type_specification]
#[verifier::external_body]
pub struct ExClockUpdater(ClockUpdater);

/// `audio_clock::ClockConsumer`, a reading end of a clock, taken as it is.
#[verifier::external_type_specification]
#[verifier::external_body]
pub struct ExClockConsumer(ClockConsumer);

/// The number of frames that the writing end of a clock has counted: the
/// sum of all that it was ever told to add, since a clock starts at zero and
/// has one writing end, which cannot be copied.
pub uninterp spec fn frames_counted(updater: ClockUpdater) -> nat;

/// Whether a writing end and a reading end belong to one clock: whether
/// they came out of one call of `audio_clock`, or the reading end is a copy
/// of one that did.
pub uninterp spec fn made_together(ends: (ClockUpdater, ClockConsumer)) -> bool;

/// `audio_clock::audio_clock`: makes a clock that stands at zero and hands
/// out its writing end and a reading end. The tempo, in beats per minute,
/// has no part in the count of frames.
#[verifier::external_body]
fn clock_start(tempo: u16, rate: u32) -> (ends: (ClockUpdater, ClockConsumer))
    ensures
        made_together(ends),
        frames_counted(ends.0) == 0,
{
    audio_clock(tempo.into(), rate)
}

/// `ClockUpdater::increment`: adds `frames` to the count, which only this
/// end of the clock can change, and leaves both ends on the clock they were
/// on. The sum is computed in a `usize`, so a count that would not fit is
/// left out.
#[verifier::external_body]
fn clock_increment(ends: &mut (ClockUpdater, ClockConsumer), frames: usize)
    requires
        frames_counted(old(ends).0) + frames <= usize::MAX,
    ensures
        frames_counted(final(ends).0) == frames_counted(old(ends).0) + frames,
        made_together(*final(ends)) == made_together(*old(ends)),
{
    ends.0.increment(frames)
}

/// `ClockConsumer::raw_frames`: reads the count of the clock that the
/// reading end is on. While the writing end of that clock is held beside
/// it, nothing can be added in between, so the reading is the count.
#[verifier::external_body]
fn clock_raw_frames(ends: &(ClockUpdater, ClockConsumer)) -> (frames: usize)
    requires
        made_together(*ends),
    ensures
        frames == frames_counted(ends.0),
{
    ends.1.raw_frames()
}

/// `ClockConsumer::clone`: another reading end on the same clock.
#[verifier::external_body]
fn clock_reader(ends: &(ClockUpdater, ClockConsumer)) -> (reader: ClockConsumer)
    ensures
        made_together((ends.0, reader)) == made_together(*ends),
{
    ends.1.clone()
}

/// The sample clock of the audio thread: the writing end, and the reading
/// end that came with it.
pub struct SampleClock {
    ends: (ClockUpdater, ClockConsumer),
}

impl SampleClock {
    /// The number of frames that this clock has counted.
    pub closed spec fn counted(&self) -> nat {
        frames_counted(self.ends.0)
    }

    /// Whether the two ends are on one clock; every constructor and method
    /// sees to it.
    pub closed spec fn wf(&self) -> bool {
        made_together(self.ends)
    }

    /// A new clock, at zero, for a stream of `rate` samples per second and a
    /// tempo of `tempo` beats per minute.
    pub fn new(tempo: u16, rate: u32) -> (clock: SampleClock)
        ensures
            clock.wf(),
            clock.counted() == 0,
    {
        SampleClock { ends: clock_start(tempo, rate) }
    }

    /// The sample index that the clock shows now: the number of frames
    /// counted so far.
    pub fn now(&self) -> (t: u64)
        requires
            self.wf(),
        ensures
            t == self.counted(),
            t <= usize::MAX,
    {
        clock_raw_frames(&self.ends) as u64
    }

    /// Counts `frames` more frames.
    pub fn advance(&mut self, frames: usize)
        requires
            old(self).wf(),
            old(self).counted() + frames <= usize::MAX,
        ensures
            final(self).wf(),
            final(self).counted() == old(self).counted() + frames,
    {
        clock_increment(&mut self.ends, frames)
    }

    /// A reading end for another thread, which shows the frames counted
    /// here as they are counted.
    pub fn reader(&self) -> (reader: ClockConsumer)
        requires
            self.wf(),
    {
        clock_reader(&self.ends)
    }
}

} // verus!
