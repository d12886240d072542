//! Replaying received state onto a virtual device.
//!
//! A virtual device wants changes, not states: a key event when a button
//! goes down or up, an axis event when an axis moves. The types here keep
//! the state applied last and compute, for each state received, the events
//! that bring the device from the one to the other. Writing the events to a
//! device is the caller's part.

use crate::gamepad::{has_flag, XButtons, XGamepad};
use crate::mouse::{Mouse, MouseButton};
use vstd::prelude::*;

verus! {

/// A key or button of a virtual input device.
#[derive(Clone, Copy, Debug, PartialEq, Eq, Structural)]
pub enum Key {
    ButtonSouth,
    ButtonEast,
    ButtonNorth,
    ButtonWest,
    ButtonTL,
    ButtonTR,
    ButtonSelect,
    ButtonStart,
    ButtonMode,
    ButtonThumbl,
    ButtonThumbr,
    ButtonLeft,
    ButtonRight,
}

/// An absolute axis of a virtual gamepad.
#[derive(Clone, Copy, Debug, PartialEq, Eq, Structural)]
pub enum AbsoluteAxis {
    X,
    Y,
    RX,
    RY,
    Z,
    RZ,
    Hat0X,
    Hat0Y,
}

/// A relative axis of a virtual mouse.
#[derive(Clone, Copy, Debug, PartialEq, Eq, Structural)]
pub enum RelativeAxis {
    X,
    Y,
    Wheel,
}

/// One event for a virtual input device.
#[allow(inconsistent_fields)]
#[derive(Clone, Copy, Debug, PartialEq, Eq, Structural)]
pub enum InputEvent {
    /// A key went down (`pressed`) or up.
    Key { key: Key, pressed: bool },
    /// An absolute axis has a new value.
    Absolute { axis: AbsoluteAxis, value: i32 },
    /// A relative axis moved by `value`.
    Relative { axis: RelativeAxis, value: i32 },
    /// The events before this one form one report.
    Synchronize,
}

/// `events`, and behind them the key event for the button with mask `flag`
/// if it is held in one of the two button masks and not in the other.
#[verifier::opaque]
pub open spec fn with_key(
    events: Seq<InputEvent>,
    previous: u16,
    current: u16,
    flag: u16,
    key: Key,
) -> Seq<InputEvent> {
    if has_flag(current, flag) != has_flag(previous, flag) {
        events.push(InputEvent::Key { key, pressed: has_flag(current, flag) })
    } else {
        events
    }
}

/// `events`, and behind them the key event for one mouse button if the
/// button changed.
#[verifier::opaque]
pub open spec fn with_button(
    events: Seq<InputEvent>,
    previous: bool,
    current: bool,
    key: Key,
) -> Seq<InputEvent> {
    if current != previous {
        events.push(InputEvent::Key { key, pressed: current })
    } else {
        events
    }
}

/// `events`, and behind them the event for one absolute axis if its value
/// changed.
#[verifier::opaque]
pub open spec fn with_axis(
    events: Seq<InputEvent>,
    previous: int,
    current: int,
    axis: AbsoluteAxis,
) -> Seq<InputEvent> {
    if current != previous {
        events.push(InputEvent::Absolute { axis, value: current as i32 })
    } else {
        events
    }
}

/// `events`, and behind them the event for one relative axis if it moved.
#[verifier::opaque]
pub open spec fn with_motion(events: Seq<InputEvent>, delta: int, axis: RelativeAxis) -> Seq<
    InputEvent,
> {
    if delta != 0 {
        events.push(InputEvent::Relative { axis, value: delta as i32 })
    } else {
        events
    }
}

/// The position of one direction of the directional pad: 1 if the button
/// `positive` is held, else -1 if `negative` is held, else 0.
pub open spec fn hat(raw: u16, positive: u16, negative: u16) -> int {
    if has_flag(raw, positive) {
        1
    } else if has_flag(raw, negative) {
        -1
    } else {
        0
    }
}

/// The events of a report: the changes and, if there are any, the mark that
/// ends the report.
pub open spec fn report(changes: Seq<InputEvent>) -> Seq<InputEvent> {
    if changes.len() > 0 {
        changes.push(InputEvent::Synchronize)
    } else {
        changes
    }
}

/// What changes on a virtual gamepad between two states, in the order of
/// the events: the eleven buttons, the directional pad as two hat axes
/// (right and down are 1, left and up are -1), the sticks with their
/// vertical axes turned round, and the triggers.
pub open spec fn gamepad_changes(previous: XGamepad, current: XGamepad) -> Seq<InputEvent> {
    let p = previous.buttons.raw;
    let c = current.buttons.raw;
    let e = Seq::<InputEvent>::empty();
    let e = with_key(e, p, c, XButtons::A, Key::ButtonSouth);
    let e = with_key(e, p, c, XButtons::B, Key::ButtonEast);
    let e = with_key(e, p, c, XButtons::X, Key::ButtonNorth);
    let e = with_key(e, p, c, XButtons::Y, Key::ButtonWest);
    let e = with_key(e, p, c, XButtons::LB, Key::ButtonTL);
    let e = with_key(e, p, c, XButtons::RB, Key::ButtonTR);
    let e = with_key(e, p, c, XButtons::BACK, Key::ButtonSelect);
    let e = with_key(e, p, c, XButtons::START, Key::ButtonStart);
    let e = with_key(e, p, c, XButtons::GUIDE, Key::ButtonMode);
    let e = with_key(e, p, c, XButtons::LTHUMB, Key::ButtonThumbl);
    let e = with_key(e, p, c, XButtons::RTHUMB, Key::ButtonThumbr);
    let e = with_axis(
        e,
        hat(p, XButtons::RIGHT, XButtons::LEFT),
        hat(c, XButtons::RIGHT, XButtons::LEFT),
        AbsoluteAxis::Hat0X,
    );
    let e = with_axis(
        e,
        hat(p, XButtons::DOWN, XButtons::UP),
        hat(c, XButtons::DOWN, XButtons::UP),
        AbsoluteAxis::Hat0Y,
    );
    let e = with_axis(e, previous.thumb_lx as int, current.thumb_lx as int, AbsoluteAxis::X);
    let e = with_axis(e, -previous.thumb_ly, -current.thumb_ly, AbsoluteAxis::Y);
    let e = with_axis(e, previous.thumb_rx as int, current.thumb_rx as int, AbsoluteAxis::RX);
    let e = with_axis(e, -previous.thumb_ry, -current.thumb_ry, AbsoluteAxis::RY);
    let e = with_axis(e, previous.left_trigger as int, current.left_trigger as int, AbsoluteAxis::Z);
    with_axis(e, previous.right_trigger as int, current.right_trigger as int, AbsoluteAxis::RZ)
}

/// What happens on a virtual mouse for one update, in the order of the
/// events: motion, scroll with its direction turned round, and the two
/// buttons where they changed.
pub open spec fn mouse_changes(previous: MouseButton, mouse: Mouse) -> Seq<InputEvent> {
    let e = Seq::<InputEvent>::empty();
    let e = with_motion(e, mouse.x as int, RelativeAxis::X);
    let e = with_motion(e, mouse.y as int, RelativeAxis::Y);
    let e = with_motion(e, -mouse.scroll, RelativeAxis::Wheel);
    let e = with_button(e, previous.left_down(), mouse.buttons.left_down(), Key::ButtonLeft);
    with_button(e, previous.right_down(), mouse.buttons.right_down(), Key::ButtonRight)
}

fn hat_of(raw: u16, positive: u16, negative: u16) -> (r: i32)
    ensures
        r == hat(raw, positive, negative),
{
    let buttons = XButtons { raw };
    if buttons.contains(positive) {
        1
    } else if buttons.contains(negative) {
        -1
    } else {
        0
    }
}

fn push_key_change(events: &mut Vec<InputEvent>, previous: u16, current: u16, flag: u16, key: Key)
    ensures
        final(events)@ == with_key(old(events)@, previous, current, flag, key),
{
    reveal(with_key);
    let pressed: bool = XButtons { raw: current }.contains(flag);
    if pressed != (XButtons { raw: previous }).contains(flag) {
        events.push(InputEvent::Key { key, pressed });
    }
}

fn push_button_change(events: &mut Vec<InputEvent>, previous: bool, current: bool, key: Key)
    ensures
        final(events)@ == with_button(old(events)@, previous, current, key),
{
    reveal(with_button);
    if current != previous {
        events.push(InputEvent::Key { key, pressed: current });
    }
}

fn push_axis_change(events: &mut Vec<InputEvent>, previous: i32, current: i32, axis: AbsoluteAxis)
    ensures
        final(events)@ == with_axis(old(events)@, previous as int, current as int, axis),
{
    reveal(with_axis);
    if current != previous {
        events.push(InputEvent::Absolute { axis, value: current });
    }
}

fn push_axis_motion(events: &mut Vec<InputEvent>, delta: i32, axis: RelativeAxis)
    ensures
        final(events)@ == with_motion(old(events)@, delta as int, axis),
{
    reveal(with_motion);
    if delta != 0 {
        events.push(InputEvent::Relative { axis, value: delta });
    }
}

fn push_report_end(events: &mut Vec<InputEvent>)
    ensures
        final(events)@ == report(old(events)@),
{
    if events.len() > 0 {
        events.push(InputEvent::Synchronize);
    }
}

/// A virtual gamepad: remembers the state applied last.
#[derive(Clone, Copy, Debug, PartialEq, Eq, Structural)]
pub struct VirtualGamepad {
    pub prev_state: XGamepad,
}

impl VirtualGamepad {
    /// A device at rest.
    pub fn new() -> (device: VirtualGamepad)
        ensures
            device.prev_state == XGamepad::neutral(),
    {
        VirtualGamepad {
            prev_state: XGamepad {
                buttons: XButtons { raw: 0 },
                left_trigger: 0,
                right_trigger: 0,
                thumb_lx: 0,
                thumb_ly: 0,
                thumb_rx: 0,
                thumb_ry: 0,
            },
        }
    }

    /// Takes the state to apply and returns the events that bring the device
    /// to it from the state applied last, as one report; no event at all if
    /// nothing changed.
    pub fn update(&mut self, gamepad: &XGamepad) -> (events: Vec<InputEvent>)
        ensures
            events@ == report(gamepad_changes(old(self).prev_state, *gamepad)),
            final(self).prev_state == *gamepad,
    {
        let previous: XGamepad = self.prev_state;
        let p: u16 = previous.buttons.raw;
        let c: u16 = gamepad.buttons.raw;
        let mut e: Vec<InputEvent> = Vec::new();
        push_key_change(&mut e, p, c, XButtons::A, Key::ButtonSouth);
        push_key_change(&mut e, p, c, XButtons::B, Key::ButtonEast);
        push_key_change(&mut e, p, c, XButtons::X, Key::ButtonNorth);
        push_key_change(&mut e, p, c, XButtons::Y, Key::ButtonWest);
        push_key_change(&mut e, p, c, XButtons::LB, Key::ButtonTL);
        push_key_change(&mut e, p, c, XButtons::RB, Key::ButtonTR);
        push_key_change(&mut e, p, c, XButtons::BACK, Key::ButtonSelect);
        push_key_change(&mut e, p, c, XButtons::START, Key::ButtonStart);
        push_key_change(&mut e, p, c, XButtons::GUIDE, Key::ButtonMode);
        push_key_change(&mut e, p, c, XButtons::LTHUMB, Key::ButtonThumbl);
        push_key_change(&mut e, p, c, XButtons::RTHUMB, Key::ButtonThumbr);
        push_axis_change(
            &mut e,
            hat_of(p, XButtons::RIGHT, XButtons::LEFT),
            hat_of(c, XButtons::RIGHT, XButtons::LEFT),
            AbsoluteAxis::Hat0X,
        );
        push_axis_change(
            &mut e,
            hat_of(p, XButtons::DOWN, XButtons::UP),
            hat_of(c, XButtons::DOWN, XButtons::UP),
            AbsoluteAxis::Hat0Y,
        );
        push_axis_change(&mut e, previous.thumb_lx as i32, gamepad.thumb_lx as i32, AbsoluteAxis::X);
        push_axis_change(
            &mut e,
            -(previous.thumb_ly as i32),
            -(gamepad.thumb_ly as i32),
            AbsoluteAxis::Y,
        );
        push_axis_change(&mut e, previous.thumb_rx as i32, gamepad.thumb_rx as i32, AbsoluteAxis::RX);
        push_axis_change(
            &mut e,
            -(previous.thumb_ry as i32),
            -(gamepad.thumb_ry as i32),
            AbsoluteAxis::RY,
        );
        push_axis_change(
            &mut e,
            previous.left_trigger as i32,
            gamepad.left_trigger as i32,
            AbsoluteAxis::Z,
        );
        push_axis_change(
            &mut e,
            previous.right_trigger as i32,
            gamepad.right_trigger as i32,
            AbsoluteAxis::RZ,
        );
        push_report_end(&mut e);
        self.prev_state = *gamepad;
        e
    }
}

/// A virtual mouse: remembers the buttons applied last.
#[derive(Clone, Copy, Debug, PartialEq, Eq, Structural)]
pub struct VirtualMouse {
    pub prev_buttons: MouseButton,
}

impl VirtualMouse {
    /// A mouse with no button held.
    pub fn new() -> (device: VirtualMouse)
        ensures
            device.prev_buttons == MouseButton(0),
    {
        VirtualMouse { prev_buttons: MouseButton(0) }
    }

    /// Takes the update to apply and returns its events as one report; no
    /// event at all if the mouse is at rest and its buttons are as before.
    pub fn update(&mut self, mouse: &Mouse) -> (events: Vec<InputEvent>)
        ensures
            events@ == report(mouse_changes(old(self).prev_buttons, *mouse)),
            final(self).prev_buttons == mouse.buttons,
    {
        let mut events: Vec<InputEvent> = Vec::new();
        push_axis_motion(&mut events, mouse.x as i32, RelativeAxis::X);
        push_axis_motion(&mut events, mouse.y as i32, RelativeAxis::Y);
        push_axis_motion(&mut events, -(mouse.scroll as i32), RelativeAxis::Wheel);
        push_button_change(
            &mut events,
            self.prev_buttons.is_left_button_down(),
            mouse.buttons.is_left_button_down(),
            Key::ButtonLeft,
        );
        push_button_change(
            &mut events,
            self.prev_buttons.is_right_button_down(),
            mouse.buttons.is_right_button_down(),
            Key::ButtonRight,
        );
        push_report_end(&mut events);
        self.prev_buttons = mouse.buttons;
        events
    }
}

/// What a button did between two updates.
#[derive(Clone, Copy, Debug, PartialEq, Eq, Structural)]
pub enum ButtonChange {
    Unchanged,
    Pressed,
    Released,
}

/// One injected mouse input: what moved and which buttons changed.
#[derive(Clone, Copy, Debug, PartialEq, Eq, Structural)]
pub struct MouseInput {
    /// Whether the pointer moved: whether `dx` or `dy` is not zero.
    pub moved: bool,
    pub dx: i32,
    pub dy: i32,
    pub left: ButtonChange,
    pub right: ButtonChange,
    /// Whether the wheel turned: whether `wheel` is not zero.
    pub scrolled: bool,
    pub wheel: i32,
}

/// What a button did, from whether it was held and whether it is held.
pub open spec fn button_change(previous: bool, current: bool) -> ButtonChange {
    if current == previous {
        ButtonChange::Unchanged
    } else if current {
        ButtonChange::Pressed
    } else {
        ButtonChange::Released
    }
}

/// The input to inject for one update, given the buttons applied last.
pub open spec fn mouse_input(previous: MouseButton, data: Mouse) -> MouseInput {
    MouseInput {
        moved: data.x != 0 || data.y != 0,
        dx: data.x as i32,
        dy: data.y as i32,
        left: button_change(previous.left_down(), data.buttons.left_down()),
        right: button_change(previous.right_down(), data.buttons.right_down()),
        scrolled: data.scroll != 0,
        wheel: data.scroll as i32,
    }
}

fn change_of(previous: bool, current: bool) -> (r: ButtonChange)
    ensures
        r == button_change(previous, current),
{
    if current == previous {
        ButtonChange::Unchanged
    } else if current {
        ButtonChange::Pressed
    } else {
        ButtonChange::Released
    }
}

/// Turns mouse updates into inputs to inject: remembers the buttons applied
/// last.
#[derive(Clone, Copy, Debug, PartialEq, Eq, Structural)]
pub struct MouseController {
    pub last_button_state: MouseButton,
}

impl MouseController {
    /// A controller that has applied nothing: no button is held.
    pub fn new() -> (controller: MouseController)
        ensures
            controller.last_button_state == MouseButton(0),
    {
        MouseController { last_button_state: MouseButton(0) }
    }

    /// Apply the mouse state: returns the input to inject for it.
    pub fn apply(&mut self, data: &Mouse) -> (input: MouseInput)
        ensures
            input == mouse_input(old(self).last_button_state, *data),
            final(self).last_button_state == data.buttons,
    {
        let input = MouseInput {
            moved: data.x != 0 || data.y != 0,
            dx: data.x as i32,
            dy: data.y as i32,
            left: change_of(
                self.last_button_state.is_left_button_down(),
                data.buttons.is_left_button_down(),
            ),
            right: change_of(
                self.last_button_state.is_right_button_down(),
                data.buttons.is_right_button_down(),
            ),
            scrolled: data.scroll != 0,
            wheel: data.scroll as i32,
        };
        self.last_button_state = data.buttons;
        input
    }
}

/// A state that equals the one applied last gives no event at all.
pub proof fn lemma_gamepad_unchanged_is_silent(g: XGamepad)
    ensures
        report(gamepad_changes(g, g)) == Seq::<InputEvent>::empty(),
{
    reveal(with_key);
    reveal(with_axis);

}

/// A report with any change ends with the mark, and the mark stands nowhere
/// else.
pub proof fn lemma_report_shape(changes: Seq<InputEvent>)
    requires
        forall|i: int| 0 <= i < changes.len() ==> !(changes[i] is Synchronize),
    ensures
        changes.len() == 0 ==> report(changes).len() == 0,
        changes.len() > 0 ==> report(changes).len() == changes.len() + 1 && report(
            changes,
        ).last() is Synchronize,
        forall|i: int| 0 <= i < changes.len() ==> report(changes)[i] == changes[i],
{
}

/// A mouse at rest whose buttons are as before gives no event at all.
pub proof fn lemma_mouse_at_rest_is_silent(previous: MouseButton, mouse: Mouse)
    requires
        mouse.x == 0 && mouse.y == 0 && mouse.scroll == 0,
        mouse.buttons == previous,
    ensures
        report(mouse_changes(previous, mouse)) == Seq::<InputEvent>::empty(),
        !mouse_input(previous, mouse).moved,
        !mouse_input(previous, mouse).scrolled,
        mouse_input(previous, mouse).left is Unchanged,
        mouse_input(previous, mouse).right is Unchanged,
{
    reveal(with_button);
    reveal(with_motion);

}

} // verus!
