//! A control value that glides to each new target instead of jumping, so
//! that a change made while audio is rendering is never heard as a click.

use vstd::arithmetic::div_mod::{
    lemma_div_is_ordered, lemma_div_multiples_vanish, lemma_div_pos_is_pos,
};
use vstd::prelude::*;

verus! {

/// A glide lasts one part in this many of a second: about 21 milliseconds.
pub const GLIDES_PER_SECOND: u32 = 48;

/// A glide as plain numbers: the value it set out from, the value it is
/// heading for, how many samples of it have passed, and how many it takes.
pub struct Glide {
    pub origin: int,
    pub target: int,
    pub step: int,
    pub window: int,
}

impl Glide {
    /// The ranges that every parameter keeps its numbers in.
    pub open spec fn valid(self) -> bool {
        &&& i32::MIN <= self.origin <= i32::MAX
        &&& i32::MIN <= self.target <= i32::MAX
        &&& 0 <= self.step <= self.window <= u32::MAX
    }

    /// How far the glide has come from its origin, rounded down: the
    /// distance to the target times the share of the window that has passed.
    pub open spec fn travelled(self) -> int {
        if self.step >= self.window {
            if self.target >= self.origin {
                self.target - self.origin
            } else {
                self.origin - self.target
            }
        } else if self.target >= self.origin {
            (self.target - self.origin) * self.step / self.window
        } else {
            (self.origin - self.target) * self.step / self.window
        }
    }

    /// The value in effect: the origin moved towards the target by the
    /// distance travelled, and the target itself once the window has passed.
    pub open spec fn current(self) -> int {
        if self.target >= self.origin {
            self.origin + self.travelled()
        } else {
            self.origin - self.travelled()
        }
    }

    /// The glide one sample later.
    pub open spec fn advanced(self) -> Glide {
        Glide { step: if self.step < self.window { self.step + 1 } else { self.step }, ..self }
    }

    /// A fresh glide from the value in effect towards `value`.
    pub open spec fn towards(self, value: int) -> Glide {
        Glide { origin: self.current(), target: value, step: 0, window: self.window }
    }

    /// The glide at rest on `value`.
    pub open spec fn resting_on(self, value: int) -> Glide {
        Glide { origin: value, target: value, step: self.window, window: self.window }
    }

    /// The glide `n` samples later.
    pub open spec fn advanced_by(self, n: nat) -> Glide
        decreases n,
    {
        if n == 0 {
            self
        } else {
            self.advanced().advanced_by((n - 1) as nat)
        }
    }
}

/// A smoothed control value.
#[derive(Debug)]
pub struct Param {
    v0: i32,
    v1: i32,
    counter: u32,
    smoothing: u32,
}

impl Param {
    /// The parameter as plain numbers.
    pub closed spec fn view(&self) -> Glide {
        Glide {
            origin: self.v0 as int,
            target: self.v1 as int,
            step: self.counter as int,
            window: self.smoothing as int,
        }
    }

    /// Whether the parameter keeps its numbers in range; every constructor
    /// and method sees to it.
    pub open spec fn wf(&self) -> bool {
        self@.valid()
    }

    /// What a new parameter is: at rest on `v`, with glides that will take
    /// a forty-eighth of a second at `sample_rate` samples per second.
    pub open spec fn new_glide(sample_rate: int, v: int) -> Glide {
        let window = sample_rate / (GLIDES_PER_SECOND as int);
        Glide { origin: v, target: v, step: window, window }
    }

    /// A new parameter at rest on `v`.
    pub fn new(sample_rate: u32, v: i32) -> (param: Param)
        ensures
            param.wf(),
            param@ == Param::new_glide(sample_rate as int, v as int),
    {
        let window: u32 = sample_rate / GLIDES_PER_SECOND;
        Param { v0: v, v1: v, counter: window, smoothing: window }
    }

    /// Moves the glide on by one sample and returns the value then in effect.
    pub fn value(&mut self) -> (v: i32)
        requires
            old(self).wf(),
        ensures
            final(self).wf(),
            final(self)@ == old(self)@.advanced(),
            v == final(self)@.current(),
    {
        if self.counter < self.smoothing {
            self.counter = self.counter + 1;
        }
        self.current()
    }

    /// Starts a glide from the value in effect towards `v`.
    pub fn set_value(&mut self, v: i32)
        requires
            old(self).wf(),
        ensures
            final(self).wf(),
            final(self)@ == old(self)@.towards(v as int),
    {
        let from: i32 = self.current();
        self.v0 = from;
        self.v1 = v;
        self.counter = 0;
    }

    /// Puts the parameter at rest on `v` at once, with no glide.
    pub fn set_value_no_smooth(&mut self, v: i32)
        requires
            old(self).wf(),
        ensures
            final(self).wf(),
            final(self)@ == old(self)@.resting_on(v as int),
    {
        self.counter = self.smoothing;
        self.v0 = v;
        self.v1 = v;
    }

    /// The value in effect, without moving the glide on.
    pub fn current(&self) -> (v: i32)
        requires
            self.wf(),
        ensures
            v == self@.current(),
    {
        proof {
            lemma_glide_between(self@);
        }
        if self.counter >= self.smoothing {
            self.v1
        } else if self.v1 >= self.v0 {
            let distance: u64 = (self.v1 as i64 - self.v0 as i64) as u64;
            proof {
                assert(distance * self.counter <= 0xffff_ffff * 0xffff_ffff) by (nonlinear_arith)
                    requires
                        0 <= distance <= 0xffff_ffff,
                        0 <= self.counter <= 0xffff_ffff,
                ;
            }
            let moved: u64 = distance * (self.counter as u64) / (self.smoothing as u64);
            (self.v0 as i64 + moved as i64) as i32
        } else {
            let distance: u64 = (self.v0 as i64 - self.v1 as i64) as u64;
            proof {
                assert(distance * self.counter <= 0xffff_ffff * 0xffff_ffff) by (nonlinear_arith)
                    requires
                        0 <= distance <= 0xffff_ffff,
                        0 <= self.counter <= 0xffff_ffff,
                ;
            }
            let moved: u64 = distance * (self.counter as u64) / (self.smoothing as u64);
            (self.v0 as i64 - moved as i64) as i32
        }
    }

    /// The value that the parameter is heading for.
    pub fn target(&self) -> (v: i32)
        ensures
            v == self@.target,
    {
        self.v1
    }
}

/// A glide never leaves the stretch between its origin and its target: the
/// distance travelled runs from nothing up to the whole distance.
pub proof fn lemma_glide_between(glide: Glide)
    requires
        glide.valid(),
    ensures
        0 <= glide.travelled(),
        glide.target >= glide.origin ==> glide.travelled() <= glide.target - glide.origin,
        glide.target < glide.origin ==> glide.travelled() <= glide.origin - glide.target,
        glide.step == 0 && glide.window > 0 ==> glide.current() == glide.origin,
        glide.step == glide.window ==> glide.current() == glide.target,
        i32::MIN <= glide.current() <= i32::MAX,
{
    if glide.step < glide.window {
        let distance = if glide.target >= glide.origin {
            glide.target - glide.origin
        } else {
            glide.origin - glide.target
        };
        assert(0 <= distance * glide.step <= distance * glide.window) by (nonlinear_arith)
            requires
                0 <= distance,
                0 <= glide.step <= glide.window,
        ;
        lemma_div_is_ordered(distance * glide.step, distance * glide.window, glide.window);
        lemma_div_multiples_vanish(distance, glide.window);
        assert(distance * glide.window == glide.window * distance) by (nonlinear_arith);
        lemma_div_pos_is_pos(distance * glide.step, glide.window);
        if glide.step == 0 {
            assert(distance * glide.step == 0) by (nonlinear_arith)
                requires
                    glide.step == 0,
            ;
        }
    }
}

/// Advancing a glide by `n` samples moves its step on by `n`, but not past
/// the window, and changes nothing else.
pub proof fn lemma_advanced_by(glide: Glide, n: nat)
    requires
        glide.valid(),
    ensures
        glide.advanced_by(n) == (Glide {
            step: if glide.step + n <= glide.window {
                glide.step + n
            } else {
                glide.window
            },
            ..glide
        }),
    decreases n,
{
    if n > 0 {
        lemma_advanced_by(glide.advanced(), (n - 1) as nat);
    }
}

/// A glide towards a value starts from the value then in effect and, once
/// as many samples have passed as its window holds, rests on the new value.
pub proof fn lemma_glide_arrives(glide: Glide, value: int)
    requires
        glide.valid(),
        i32::MIN <= value <= i32::MAX,
    ensures
        glide.window > 0 ==> glide.towards(value).current() == glide.current(),
        glide.towards(value).advanced_by(glide.window as nat).current() == value,
{
    lemma_glide_between(glide);
    lemma_glide_between(glide.towards(value));
    lemma_advanced_by(glide.towards(value), glide.window as nat);
}

/// A glide never jumps: from one sample to the next the value in effect
/// moves towards the target, by no more than the window's share of the
/// whole distance, rounded up.
pub proof fn lemma_glide_is_gradual(glide: Glide)
    requires
        glide.valid(),
        glide.step < glide.window,
    ensures
        glide.target >= glide.origin ==> 0 <= glide.advanced().current() - glide.current() <= (
        glide.target - glide.origin) / glide.window + 1,
        glide.target < glide.origin ==> 0 <= glide.current() - glide.advanced().current() <= (
        glide.origin - glide.target) / glide.window + 1,
{
    let distance = if glide.target >= glide.origin {
        glide.target - glide.origin
    } else {
        glide.origin - glide.target
    };
    let w = glide.window;
    let a = distance * glide.step;
    let b = distance * (glide.step + 1);
    assert(b == a + distance && 0 <= a) by (nonlinear_arith)
        requires
            a == distance * glide.step,
            b == distance * (glide.step + 1),
            0 <= distance,
            0 <= glide.step,
    ;
    vstd::arithmetic::div_mod::lemma_fundamental_div_mod(a, w);
    vstd::arithmetic::div_mod::lemma_fundamental_div_mod(distance, w);
    vstd::arithmetic::div_mod::lemma_fundamental_div_mod(b, w);
    lemma_div_is_ordered(a, b, w);
    let slack = (a % w) + (distance % w);
    assert(b == w * (a / w + distance / w) + slack) by (nonlinear_arith)
        requires
            b == a + distance,
            a == w * (a / w) + a % w,
            distance == w * (distance / w) + distance % w,
            slack == (a % w) + (distance % w),
    ;
    if slack < w {
        assert(b == (a / w + distance / w) * w + slack) by (nonlinear_arith)
            requires
                b == w * (a / w + distance / w) + slack,
        ;
        vstd::arithmetic::div_mod::lemma_fundamental_div_mod_converse(
            b,
            w,
            a / w + distance / w,
            slack,
        );
    } else {
        assert(b == (a / w + distance / w + 1) * w + (slack - w)) by (nonlinear_arith)
            requires
                b == w * (a / w + distance / w) + slack,
        ;
        assert(0 <= a % w < w && 0 <= distance % w < w);
        vstd::arithmetic::div_mod::lemma_fundamental_div_mod_converse(
            b,
            w,
            a / w + distance / w + 1,
            slack - w,
        );
    }
    if glide.step + 1 == w {
        lemma_div_multiples_vanish(distance, w);
        assert(distance * w == w * distance) by (nonlinear_arith);
    }
}

} // verus!
