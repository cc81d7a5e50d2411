//! The delay and sound countdown timers.

use vstd::prelude::*;

verus! {

/// How much one tick takes off a timer.
pub const TICK: u8 = 60;

/// An 8-bit countdown value that can be read and overwritten.
pub trait Timer {
    /// The value the timer currently holds.
    spec fn value(&self) -> u8;

    /// Reads the timer.
    fn get_timer(&self) -> (value: u8)
        ensures
            value == self.value(),
    ;

    /// Overwrites the timer with `value`.
    fn set_timer(&mut self, value: u8)
        ensures
            final(self).value() == value,
    ;
}

/// The timer that programs read to measure delays.
pub struct DelayTimer {
    timer: u8,
}

/// The timer whose countdown stands for a tone being played.
pub struct SoundTimer {
    timer: u8,
}

impl Timer for SoundTimer {
    closed spec fn value(&self) -> u8 {
        self.timer
    }

    fn get_timer(&self) -> (value: u8) {
        self.timer
    }

    fn set_timer(&mut self, value: u8) {
        self.timer = value;
    }
}

impl SoundTimer {
    /// A sound timer holding the largest value, 255.
    pub fn new() -> (timer: SoundTimer)
        ensures
            timer.value() == u8::MAX,
    {
        SoundTimer { timer: u8::MAX }
    }
}

impl Timer for DelayTimer {
    closed spec fn value(&self) -> u8 {
        self.timer
    }

    fn get_timer(&self) -> (value: u8) {
        self.timer
    }

    fn set_timer(&mut self, value: u8) {
        self.timer = value;
    }
}

impl DelayTimer {
    /// A delay timer holding the largest value, 255.
    pub fn new() -> (timer: DelayTimer)
        ensures
            timer.value() == u8::MAX,
    {
        DelayTimer { timer: u8::MAX }
    }
}

/// What a timer holding `value` holds after one tick: 60 less, but never
/// less than zero.
pub open spec fn ticked(value: u8) -> u8 {
    if value > TICK {
        (value - TICK) as u8
    } else {
        0
    }
}

/// Applies one tick to `timer`. The caller decides the cadence and holds
/// whatever lock guards the timer for the length of this call.
pub fn decrement_timer<T: Timer>(timer: &mut T)
    ensures
        final(timer).value() == ticked(old(timer).value()),
{
    let current_value: u8 = timer.get_timer();
    if current_value > TICK {
        timer.set_timer(current_value - TICK);
    } else {
        timer.set_timer(0);
    }
}

} // verus!
