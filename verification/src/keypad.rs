//! The sixteen-key input latch.

use vstd::prelude::*;

verus! {

/// Sixteen pressed/released states, one per key code `0x0..=0xF`.
#[derive(Debug)]
pub struct Keypad {
    keys: [bool; 16],
}

impl View for Keypad {
    type V = Seq<bool>;

    /// The state of each key, indexed by key code; always of length 16.
    closed spec fn view(&self) -> Seq<bool> {
        self.keys@
    }
}

impl Keypad {
    /// Every keypad has sixteen keys.
    pub proof fn lemma_view_len(&self)
        ensures
            self@.len() == 16,
    {
    }

    /// A keypad with every key released.
    pub fn new() -> (keypad: Keypad)
        ensures
            keypad@ == Seq::new(16, |k: int| false),
    {
        Keypad { keys: [false; 16] }
    }

    /// Latches `key` as pressed. A key code outside `0x0..=0xF` is ignored.
    pub fn press_key(&mut self, key: usize)
        ensures
            final(self)@ == (if key < 16 {
                old(self)@.update(key as int, true)
            } else {
                old(self)@
            }),
    {
        if key < 16 {
            self.keys[key] = true;
        }
    }

    /// Latches `key` as released. A key code outside `0x0..=0xF` is ignored.
    pub fn release_key(&mut self, key: usize)
        ensures
            final(self)@ == (if key < 16 {
                old(self)@.update(key as int, false)
            } else {
                old(self)@
            }),
    {
        if key < 16 {
            self.keys[key] = false;
        }
    }

    /// Whether `key` is currently pressed; a key code outside `0x0..=0xF`
    /// is never pressed.
    pub fn is_pressed(&self, key: usize) -> (pressed: bool)
        ensures
            pressed == (key < 16 && self@[key as int]),
    {
        if key < 16 {
            self.keys[key]
        } else {
            false
        }
    }
}

} // verus!
