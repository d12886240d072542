//! Relative mouse movement with an absolute button mask.

use crate::wire::{byte_to_i8, i8_to_byte, i8_to_u8, u8_to_i8};
use vstd::prelude::*;

verus! {

/// Bitmask of the mouse buttons that are held down.
#[derive(Clone, Copy, Debug, PartialEq, Eq, Structural)]
pub struct MouseButton(pub u8);

impl MouseButton {
    /// The bit of the left button.
    pub const MOUSE_LEFT_BUTTON: u8 = 1;

    /// The bit of the right button.
    pub const MOUSE_RIGHT_BUTTON: u8 = 2;

    /// Whether the mask has the left button's bit.
    pub open spec fn left_down(self) -> bool {
        self.0 & 1 != 0
    }

    /// Whether the mask has the right button's bit.
    pub open spec fn right_down(self) -> bool {
        self.0 & 2 != 0
    }

    /// Marks the left button as held; every other bit stays.
    pub fn left_button_down(&mut self)
        ensures
            final(self).0 == old(self).0 | 1,
            final(self).left_down(),
            final(self).right_down() == old(self).right_down(),
    {
        let before: u8 = self.0;
        self.0 = before | Self::MOUSE_LEFT_BUTTON;
        assert((before | 1) & 1 != 0 && (before | 1) & 2 == before & 2) by (bit_vector);
    }

    /// Whether the left button is held.
    pub fn is_left_button_down(&self) -> (r: bool)
        ensures
            r == self.left_down(),
    {
        self.0 & Self::MOUSE_LEFT_BUTTON != 0
    }

    /// Marks the right button as held; every other bit stays.
    pub fn right_button_down(&mut self)
        ensures
            final(self).0 == old(self).0 | 2,
            final(self).right_down(),
            final(self).left_down() == old(self).left_down(),
    {
        let before: u8 = self.0;
        self.0 = before | Self::MOUSE_RIGHT_BUTTON;
        assert((before | 2) & 2 != 0 && (before | 2) & 1 == before & 1) by (bit_vector);
    }

    /// Whether the right button is held.
    pub fn is_right_button_down(&self) -> (r: bool)
        ensures
            r == self.right_down(),
    {
        self.0 & Self::MOUSE_RIGHT_BUTTON != 0
    }
}

impl Default for MouseButton {
    fn default() -> (r: MouseButton)
        ensures
            r.0 == 0,
    {
        MouseButton(0)
    }
}

/// The mouse movement data in pixels in one update.
///
/// `x`, `y` and `scroll` are displacements since the previous update;
/// `buttons` is the mask of what is held now.
#[derive(Clone, Copy, Debug, PartialEq, Eq, Structural)]
pub struct Mouse {
    pub x: i8,
    pub y: i8,
    pub buttons: MouseButton,
    pub scroll: i8,
}

impl Mouse {
    /// A mouse that did not move, with no button held.
    pub open spec fn still() -> Mouse {
        Mouse { x: 0, y: 0, buttons: MouseButton(0), scroll: 0 }
    }

    /// The four bytes that carry this update in a frame.
    pub open spec fn payload(self) -> Seq<u8> {
        seq![i8_to_byte(self.x), i8_to_byte(self.y), self.buttons.0, i8_to_byte(self.scroll)]
    }

    /// The update that the first four bytes of `s` carry.
    pub open spec fn from_payload(s: Seq<u8>) -> Mouse
        recommends
            s.len() >= 4,
    {
        Mouse {
            x: byte_to_i8(s[0]),
            y: byte_to_i8(s[1]),
            buttons: MouseButton(s[2]),
            scroll: byte_to_i8(s[3]),
        }
    }

    /// Serialize the mouse movement data into a buffer.
    /// The buffer must be at least 4 bytes long; what follows the first four
    /// bytes is left as it was.
    pub fn serialize(&self, buf: &mut [u8])
        requires
            old(buf)@.len() >= 4,
        ensures
            final(buf)@ == self.payload() + old(buf)@.skip(4),
    {
        buf[0] = i8_to_u8(self.x);
        buf[1] = i8_to_u8(self.y);
        buf[2] = self.buttons.0;
        buf[3] = i8_to_u8(self.scroll);
    }

    /// Deserialize the mouse movement data from a buffer.
    /// The buffer must be at least 4 bytes long.
    pub fn deserialize(buf: &[u8]) -> (r: Mouse)
        requires
            buf@.len() >= 4,
        ensures
            r == Mouse::from_payload(buf@),
    {
        Mouse {
            x: u8_to_i8(buf[0]),
            y: u8_to_i8(buf[1]),
            buttons: MouseButton(buf[2]),
            scroll: u8_to_i8(buf[3]),
        }
    }
}

impl Default for Mouse {
    fn default() -> (r: Mouse)
        ensures
            r == Mouse::still(),
    {
        Mouse { x: 0, y: 0, buttons: MouseButton(0), scroll: 0 }
    }
}

} // verus!
