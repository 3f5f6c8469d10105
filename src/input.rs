//! The state of the eight buttons, packed for the joypad register.

use vstd::prelude::*;

verus! {

/// Which buttons are held.
#[derive(Clone, Copy, Debug, PartialEq, Eq, Structural)]
pub struct Input {
    pub a: bool,
    pub b: bool,
    pub start: bool,
    pub select: bool,
    pub left: bool,
    pub right: bool,
    pub up: bool,
    pub down: bool,
}

/// 0 when held, `weight` when not: the register is active-low.
pub open spec fn released(held: bool, weight: int) -> int {
    if held { 0 } else { weight }
}

impl Input {
    /// The action group, bits 3..0: A, B, Select, Start.
    pub open spec fn keys1_spec(&self) -> u8 {
        (released(self.a, 8) + released(self.b, 4) + released(self.select, 2) + released(self.start, 1)) as u8
    }

    /// The direction group, bits 3..0: Right, Left, Up, Down.
    pub open spec fn keys2_spec(&self) -> u8 {
        (released(self.right, 8) + released(self.left, 4) + released(self.up, 2) + released(self.down, 1)) as u8
    }

    /// No button held.
    pub fn new() -> (r: Input)
        ensures
            !r.a && !r.b && !r.start && !r.select && !r.left && !r.right && !r.up && !r.down,
    {
        Input {
            a: false,
            b: false,
            start: false,
            select: false,
            left: false,
            right: false,
            up: false,
            down: false,
        }
    }

    pub fn get_keys1(&self) -> (r: u8)
        ensures
            r == self.keys1_spec(),
            r < 16,
    {
        let mut keys: u8 = 0;
        keys = keys + if self.a { 0 } else { 8 };
        keys = keys + if self.b { 0 } else { 4 };
        keys = keys + if self.select { 0 } else { 2 };
        keys = keys + if self.start { 0 } else { 1 };
        keys
    }

    pub fn get_keys2(&self) -> (r: u8)
        ensures
            r == self.keys2_spec(),
            r < 16,
    {
        let mut keys: u8 = 0;
        keys = keys + if self.right { 0 } else { 8 };
        keys = keys + if self.left { 0 } else { 4 };
        keys = keys + if self.up { 0 } else { 2 };
        keys = keys + if self.down { 0 } else { 1 };
        keys
    }
}

} // verus!
