//! The control surface: four encoders, each with a dial from 0 to 64 shown
//! on a ring of lights, each turning into updates of one parameter.

use crate::channel::ParameterUpdate;
use crate::fixed::{MICROS_PER_SECOND, ONE};
use vstd::prelude::*;

verus! {

/// The number of encoders, and of parameters that they set.
pub const ENCODERS: usize = 4;

/// A dial moves by a tenth of a position for each unit that its encoder
/// turns.
pub const STEPS_PER_POSITION: u32 = 10;

/// The top of a dial, in tenths of a position: position 64.
pub const DIAL_TOP: u32 = 640;

/// The carrier frequency that the voice is started on: 110 hertz.
pub const STARTUP_CARRIER: i32 = 110 * 65536;

/// The modulator frequency that the voice is started on: 55 hertz.
pub const STARTUP_MODULATOR: i32 = 55 * 65536;

/// The attack time that the voice is started on, in microseconds.
pub const STARTUP_ATTACK: u32 = 100_000;

/// The release time that the voice is started on, in microseconds.
pub const STARTUP_RELEASE: u32 = 900_000;

/// Where a dial at `level` tenths stands after its encoder has turned by
/// `delta`: moved by `delta` tenths and kept between zero and the top.
pub open spec fn turned(level: int, delta: int) -> int {
    if level + delta < 0 {
        0
    } else if level + delta > DIAL_TOP {
        DIAL_TOP as int
    } else {
        level + delta
    }
}

/// The light on the ring that shows a dial at `level` tenths.
pub open spec fn position(level: int) -> int {
    level / (STEPS_PER_POSITION as int)
}

/// The update that encoder `n` sends when its dial stands at `level`
/// tenths. The first two dials read ten hertz per position, for the carrier
/// and the modulator; the last two read a sixty-fourth of a second per
/// position, for the attack and the release.
pub open spec fn update_for(n: int, level: int) -> ParameterUpdate {
    if n == 0 {
        ParameterUpdate::CarrierFrequency((level * ONE) as i32)
    } else if n == 1 {
        ParameterUpdate::ModulatorFrequency((level * ONE) as i32)
    } else if n == 2 {
        ParameterUpdate::Attack((level * MICROS_PER_SECOND / (DIAL_TOP as int)) as u32)
    } else {
        ParameterUpdate::Release((level * MICROS_PER_SECOND / (DIAL_TOP as int)) as u32)
    }
}

/// What the turn of an encoder calls for: the light to put out on its ring,
/// the light to put on, and the update to send to the voice.
#[derive(Clone, Copy, Debug, PartialEq, Eq, Structural)]
pub struct Turn {
    pub ring: usize,
    pub unlit: u32,
    pub lit: u32,
    pub update: ParameterUpdate,
}

/// The four dials of the control surface.
#[derive(Debug)]
pub struct ControlSurface {
    dials: [u32; 4],
}

impl ControlSurface {
    /// The levels of the four dials, in tenths of a position.
    pub closed spec fn view(&self) -> Seq<int> {
        Seq::new(4, |i: int| self.dials[i] as int)
    }

    /// Whether every dial is between zero and the top; every constructor
    /// and method sees to it.
    pub open spec fn wf(&self) -> bool {
        &&& self@.len() == ENCODERS
        &&& forall|i: int| 0 <= i < ENCODERS ==> 0 <= #[trigger] self@[i] <= DIAL_TOP
    }

    /// A control surface with every dial at zero.
    pub fn new() -> (surface: ControlSurface)
        ensures
            surface.wf(),
            surface@ == Seq::new(4, |i: int| 0int),
    {
        let surface = ControlSurface { dials: [0, 0, 0, 0] };
        assert(surface@ =~= Seq::new(4, |i: int| 0int));
        surface
    }

    /// The updates that set the voice to its starting sound, in the order
    /// in which they are sent: carrier 110 hertz, modulator 55 hertz, attack
    /// a tenth of a second, release nine tenths.
    pub fn startup_updates() -> (updates: [ParameterUpdate; 4])
        ensures
            updates@ == seq![
                ParameterUpdate::CarrierFrequency(STARTUP_CARRIER),
                ParameterUpdate::ModulatorFrequency(STARTUP_MODULATOR),
                ParameterUpdate::Attack(STARTUP_ATTACK),
                ParameterUpdate::Release(STARTUP_RELEASE),
            ],
    {
        let updates = [
            ParameterUpdate::CarrierFrequency(STARTUP_CARRIER),
            ParameterUpdate::ModulatorFrequency(STARTUP_MODULATOR),
            ParameterUpdate::Attack(STARTUP_ATTACK),
            ParameterUpdate::Release(STARTUP_RELEASE),
        ];
        assert(updates@ =~= seq![
            ParameterUpdate::CarrierFrequency(STARTUP_CARRIER),
            ParameterUpdate::ModulatorFrequency(STARTUP_MODULATOR),
            ParameterUpdate::Attack(STARTUP_ATTACK),
            ParameterUpdate::Release(STARTUP_RELEASE),
        ]);
        updates
    }

    /// The level of dial `n`, in tenths of a position.
    pub fn level(&self, n: usize) -> (level: u32)
        requires
            n < ENCODERS,
        ensures
            level == self@[n as int],
    {
        self.dials[n]
    }

    /// Takes in a turn of encoder `n` by `delta`. For one of the four
    /// encoders the dial moves and the answer names the lights to change
    /// and the update to send; a turn of any other encoder changes nothing
    /// and calls for nothing.
    pub fn encoder_delta(&mut self, n: usize, delta: i32) -> (turn: Option<Turn>)
        requires
            old(self).wf(),
        ensures
            final(self).wf(),
            n >= ENCODERS ==> turn.is_none() && final(self)@ == old(self)@,
            n < ENCODERS ==> final(self)@ == old(self)@.update(
                n as int,
                turned(old(self)@[n as int], delta as int),
            ) && turn == Some(
                Turn {
                    ring: n,
                    unlit: position(old(self)@[n as int]) as u32,
                    lit: position(final(self)@[n as int]) as u32,
                    update: update_for(n as int, final(self)@[n as int]),
                },
            ),
    {
        if n >= ENCODERS {
            return None;
        }
        let before: u32 = self.dials[n];
        let moved: i64 = before as i64 + delta as i64;
        let after: u32 = if moved < 0 {
            0
        } else if moved > DIAL_TOP as i64 {
            DIAL_TOP
        } else {
            moved as u32
        };
        self.dials[n] = after;
        proof {
            assert(final(self)@ =~= old(self)@.update(n as int, after as int));
        }
        let update = if n == 0 {
            ParameterUpdate::CarrierFrequency((after * ONE) as i32)
        } else if n == 1 {
            ParameterUpdate::ModulatorFrequency((after * ONE) as i32)
        } else if n == 2 {
            ParameterUpdate::Attack(
                ((after as u64) * (MICROS_PER_SECOND as u64) / (DIAL_TOP as u64)) as u32,
            )
        } else {
            ParameterUpdate::Release(
                ((after as u64) * (MICROS_PER_SECOND as u64) / (DIAL_TOP as u64)) as u32,
            )
        };
        Some(
            Turn {
                ring: n,
                unlit: before / STEPS_PER_POSITION,
                lit: after / STEPS_PER_POSITION,
                update,
            },
        )
    }
}

} // verus!
