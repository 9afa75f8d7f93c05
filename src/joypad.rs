use vstd::prelude::*;

verus! {

/// The eight buttons, `true` while held.
pub struct InputStates {
    pub down: bool,
    pub up: bool,
    pub left: bool,
    pub right: bool,
    pub start: bool,
    pub select: bool,
    pub b: bool,
    pub a: bool,
}

/// 1 for a held button, 0 otherwise.
pub open spec fn held(b: bool) -> int {
    if b {
        1
    } else {
        0
    }
}

impl InputStates {
    /// What the joypad register reads as, given the select bits last written to it:
    /// bit 4 clear and bit 5 set selects the directions, bit 5 clear and bit 4 set the
    /// action buttons; the low nibble is active-low.
    pub open spec fn joypad_value(&self, joyp: u8) -> u8 {
        if joyp & 0x20 != 0 && joyp & 0x10 == 0 {
            (0xFF - (0x10 + 8 * held(self.down) + 4 * held(self.up) + 2 * held(self.left) + held(
                self.right,
            ))) as u8
        } else if joyp & 0x20 == 0 && joyp & 0x10 != 0 {
            (0xFF - (0x20 + 8 * held(self.start) + 4 * held(self.select) + 2 * held(self.b) + held(
                self.a,
            ))) as u8
        } else {
            0xFF
        }
    }

    /// No button held.
    pub fn new() -> (r: Self)
        ensures
            !r.down && !r.up && !r.left && !r.right,
            !r.start && !r.select && !r.b && !r.a,
    {
        InputStates {
            down: false,
            up: false,
            left: false,
            right: false,
            start: false,
            select: false,
            b: false,
            a: false,
        }
    }

    pub fn get_states(&self, joyp: u8) -> (r: u8)
        ensures
            r == self.joypad_value(joyp),
    {
        if joyp & 0x20 != 0 && joyp & 0x10 == 0 {
            let states: u8 = 0x10 + 8 * (self.down as u8) + 4 * (self.up as u8) + 2 * (self.left as u8)
                + (self.right as u8);
            0xFF - states
        } else if joyp & 0x20 == 0 && joyp & 0x10 != 0 {
            let states: u8 = 0x20 + 8 * (self.start as u8) + 4 * (self.select as u8) + 2 * (
            self.b as u8) + (self.a as u8);
            0xFF - states
        } else {
            0xFF
        }
    }
}

} // verus!
