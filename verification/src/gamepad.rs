//! Absolute snapshot of an Xbox-style controller.

use crate::wire::{i16_from_le, i16_to_le, u16_from_le, u16_to_le};
use vstd::prelude::*;

verus! {

/// Whether a button mask has all bits of `flag`.
#[verifier::opaque]
pub open spec fn has_flag(raw: u16, flag: u16) -> bool {
    raw & flag == flag
}

/// Bitmask of the digital buttons of a controller.
#[derive(Clone, Copy, Debug, PartialEq, Eq, Structural)]
pub struct XButtons {
    pub raw: u16,
}

impl XButtons {
    /// Dpad up button.
    pub const UP: u16 = 0x0001;

    /// Dpad down button.
    pub const DOWN: u16 = 0x0002;

    /// Dpad left button.
    pub const LEFT: u16 = 0x0004;

    /// Dpad right button.
    pub const RIGHT: u16 = 0x0008;

    /// Start button.
    pub const START: u16 = 0x0010;

    /// Back button.
    pub const BACK: u16 = 0x0020;

    /// Left thumb button.
    pub const LTHUMB: u16 = 0x0040;

    /// Right thumb button.
    pub const RTHUMB: u16 = 0x0080;

    /// Left shoulder button.
    pub const LB: u16 = 0x0100;

    /// Right shoulder button.
    pub const RB: u16 = 0x0200;

    /// Xbox guide button.
    pub const GUIDE: u16 = 0x0400;

    /// A button.
    pub const A: u16 = 0x1000;

    /// B button.
    pub const B: u16 = 0x2000;

    /// X button.
    pub const X: u16 = 0x4000;

    /// Y button.
    pub const Y: u16 = 0x8000;

    /// Whether all buttons of `flag` are held.
    pub fn contains(&self, flag: u16) -> (held: bool)
        ensures
            held == has_flag(self.raw, flag),
    {
        reveal(has_flag);
        self.raw & flag == flag
    }
}

/// One full controller state: buttons, triggers and both thumb sticks.
#[derive(Clone, Copy, Debug, PartialEq, Eq, Structural)]
pub struct XGamepad {
    pub buttons: XButtons,
    pub left_trigger: u8,
    pub right_trigger: u8,
    pub thumb_lx: i16,
    pub thumb_ly: i16,
    pub thumb_rx: i16,
    pub thumb_ry: i16,
}

impl XGamepad {
    /// The state of a controller at rest: nothing pressed, sticks centred.
    pub open spec fn neutral() -> XGamepad {
        XGamepad {
            buttons: XButtons { raw: 0 },
            left_trigger: 0,
            right_trigger: 0,
            thumb_lx: 0,
            thumb_ly: 0,
            thumb_rx: 0,
            thumb_ry: 0,
        }
    }

    /// The twelve bytes that carry this state in a frame: buttons, left
    /// trigger, right trigger, then the four stick axes, all little-endian.
    pub open spec fn payload(self) -> Seq<u8> {
        u16_to_le(self.buttons.raw) + seq![self.left_trigger, self.right_trigger] + i16_to_le(
            self.thumb_lx,
        ) + i16_to_le(self.thumb_ly) + i16_to_le(self.thumb_rx) + i16_to_le(self.thumb_ry)
    }

    /// The state that the first twelve bytes of `s` carry.
    pub open spec fn from_payload(s: Seq<u8>) -> XGamepad
        recommends
            s.len() >= 12,
    {
        XGamepad {
            buttons: XButtons { raw: u16_from_le(s[0], s[1]) },
            left_trigger: s[2],
            right_trigger: s[3],
            thumb_lx: i16_from_le(s[4], s[5]),
            thumb_ly: i16_from_le(s[6], s[7]),
            thumb_rx: i16_from_le(s[8], s[9]),
            thumb_ry: i16_from_le(s[10], s[11]),
        }
    }
}

impl Default for XButtons {
    fn default() -> (r: XButtons)
        ensures
            r.raw == 0,
    {
        XButtons { raw: 0 }
    }
}

impl Default for XGamepad {
    fn default() -> (r: XGamepad)
        ensures
            r == XGamepad::neutral(),
    {
        XGamepad {
            buttons: XButtons { raw: 0 },
            left_trigger: 0,
            right_trigger: 0,
            thumb_lx: 0,
            thumb_ly: 0,
            thumb_rx: 0,
            thumb_ry: 0,
        }
    }
}

} // verus!
