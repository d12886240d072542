//! Differential updates: which packets a sampling tick has to send.
//!
//! A gamepad state is absolute, so it is sent only when it differs from the
//! one sent last. Mouse motion and scroll are displacements, so a tick that
//! reports any is always sent, even when it repeats the numbers of the tick
//! before. Only the mouse buttons are compared with what was sent last.

use crate::gamepad::{XButtons, XGamepad};
use crate::mouse::{Mouse, MouseButton};
use crate::packet::Packet;
use vstd::prelude::*;

verus! {

/// What one session remembers of the packets it has sent.
#[derive(Clone, Copy, Debug, PartialEq, Eq, Structural)]
pub struct ChangeDetector {
    /// The gamepad state sent last.
    pub last_gamepad: XGamepad,
    /// The mouse buttons sent last. Motion and scroll are never kept.
    pub last_mouse_button: MouseButton,
}

impl ChangeDetector {
    /// The detector of a fresh session: a controller at rest, no button held.
    pub open spec fn initial() -> ChangeDetector {
        ChangeDetector { last_gamepad: XGamepad::neutral(), last_mouse_button: MouseButton(0) }
    }

    /// Whether `gamepad` has to be sent: it differs in some field from the
    /// state sent last.
    pub open spec fn gamepad_changed(self, gamepad: XGamepad) -> bool {
        gamepad != self.last_gamepad
    }

    /// Whether `mouse` has to be sent: it moved, scrolled, or its buttons
    /// differ from those sent last.
    pub open spec fn mouse_active(self, mouse: Mouse) -> bool {
        mouse.x != 0 || mouse.y != 0 || mouse.scroll != 0 || mouse.buttons
            != self.last_mouse_button
    }

    /// The packets of one tick, in sending order: the gamepad first.
    pub open spec fn emitted(self, gamepad: XGamepad, mouse: Mouse) -> Seq<Packet> {
        let pad = if self.gamepad_changed(gamepad) {
            seq![Packet::Gamepad(gamepad)]
        } else {
            Seq::<Packet>::empty()
        };
        let ptr = if self.mouse_active(mouse) {
            seq![Packet::Mouse(mouse)]
        } else {
            Seq::<Packet>::empty()
        };
        pad + ptr
    }

    /// The detector after one tick. A state that was not sent equals the one
    /// sent last, so after every tick the detector holds the tick's gamepad
    /// and the tick's mouse buttons.
    pub open spec fn after(self, gamepad: XGamepad, mouse: Mouse) -> ChangeDetector {
        ChangeDetector {
            last_gamepad: if self.gamepad_changed(gamepad) {
                gamepad
            } else {
                self.last_gamepad
            },
            last_mouse_button: if self.mouse_active(mouse) {
                mouse.buttons
            } else {
                self.last_mouse_button
            },
        }
    }

    /// How many gamepad packets a sequence holds.
    pub open spec fn count_gamepad(events: Seq<Packet>) -> nat
        decreases events.len(),
    {
        if events.len() == 0 {
            0
        } else {
            let rest = Self::count_gamepad(events.drop_last());
            if events.last() is Gamepad {
                rest + 1
            } else {
                rest
            }
        }
    }

    /// How many mouse packets a sequence holds.
    pub open spec fn count_mouse(events: Seq<Packet>) -> nat
        decreases events.len(),
    {
        if events.len() == 0 {
            0
        } else {
            let rest = Self::count_mouse(events.drop_last());
            if events.last() is Mouse {
                rest + 1
            } else {
                rest
            }
        }
    }

    /// The detector after a sequence of ticks.
    pub open spec fn run(self, ticks: Seq<(XGamepad, Mouse)>) -> ChangeDetector
        decreases ticks.len(),
    {
        if ticks.len() == 0 {
            self
        } else {
            self.after(ticks[0].0, ticks[0].1).run(ticks.skip(1))
        }
    }

    /// All packets of a sequence of ticks, in sending order.
    pub open spec fn sent(self, ticks: Seq<(XGamepad, Mouse)>) -> Seq<Packet>
        decreases ticks.len(),
    {
        if ticks.len() == 0 {
            Seq::<Packet>::empty()
        } else {
            self.emitted(ticks[0].0, ticks[0].1) + self.after(ticks[0].0, ticks[0].1).sent(
                ticks.skip(1),
            )
        }
    }

    /// Starts a session with nothing sent yet.
    pub fn new() -> (detector: ChangeDetector)
        ensures
            detector == ChangeDetector::initial(),
    {
        ChangeDetector {
            last_gamepad: XGamepad {
                buttons: XButtons { raw: 0 },
                left_trigger: 0,
                right_trigger: 0,
                thumb_lx: 0,
                thumb_ly: 0,
                thumb_rx: 0,
                thumb_ry: 0,
            },
            last_mouse_button: MouseButton(0),
        }
    }

    /// Takes the state sampled in one tick and returns the packets to send
    /// for it, none, one or two, in sending order.
    pub fn tick(&mut self, gamepad: XGamepad, mouse: Mouse) -> (events: Vec<Packet>)
        ensures
            events@ == old(self).emitted(gamepad, mouse),
            *final(self) == old(self).after(gamepad, mouse),
    {
        let mut events: Vec<Packet> = Vec::new();
        if gamepad != self.last_gamepad {
            events.push(Packet::Gamepad(gamepad));
            self.last_gamepad = gamepad;
        }
        if mouse.x != 0 || mouse.y != 0 || mouse.buttons != self.last_mouse_button || mouse.scroll
            != 0 {
            events.push(Packet::Mouse(mouse));
            self.last_mouse_button = mouse.buttons;
        }
        events
    }
}

/// After any tick the detector holds exactly what the tick sampled: the
/// gamepad state and the mouse buttons.
pub proof fn lemma_after_holds_sample(d: ChangeDetector, gamepad: XGamepad, mouse: Mouse)
    ensures
        d.after(gamepad, mouse).last_gamepad == gamepad,
        d.after(gamepad, mouse).last_mouse_button == mouse.buttons,
{
}

/// A tick sends at most two packets, at most one of each kind, and never a
/// timestamp.
pub proof fn lemma_tick_bounds(d: ChangeDetector, gamepad: XGamepad, mouse: Mouse)
    ensures
        d.emitted(gamepad, mouse).len() <= 2,
        ChangeDetector::count_gamepad(d.emitted(gamepad, mouse)) <= 1,
        ChangeDetector::count_mouse(d.emitted(gamepad, mouse)) <= 1,
        forall|i: int|
            0 <= i < d.emitted(gamepad, mouse).len() ==> !(d.emitted(gamepad, mouse)[i]
                is Timestamp),
{
    lemma_counts(d, gamepad, mouse);
}

/// The number of gamepad packets of a tick is one if the state changed and
/// zero if not; likewise for the mouse.
pub proof fn lemma_counts(d: ChangeDetector, gamepad: XGamepad, mouse: Mouse)
    ensures
        ChangeDetector::count_gamepad(d.emitted(gamepad, mouse)) == (if d.gamepad_changed(gamepad) {
            1nat
        } else {
            0nat
        }),
        ChangeDetector::count_mouse(d.emitted(gamepad, mouse)) == (if d.mouse_active(mouse) {
            1nat
        } else {
            0nat
        }),
{
    let e = d.emitted(gamepad, mouse);
    reveal_with_fuel(ChangeDetector::count_gamepad, 3);
    reveal_with_fuel(ChangeDetector::count_mouse, 3);
    if e.len() == 2 {
        assert(e.drop_last() =~= seq![Packet::Gamepad(gamepad)]);
    }
}

/// Gamepad dedup: the tick after one that sampled `gamepad` sends no gamepad
/// packet if it samples the same state again, whatever the mouse does.
pub proof fn lemma_gamepad_dedup(
    d: ChangeDetector,
    gamepad: XGamepad,
    mouse_first: Mouse,
    mouse_second: Mouse,
)
    ensures
        ChangeDetector::count_gamepad(
            d.after(gamepad, mouse_first).emitted(gamepad, mouse_second),
        ) == 0,
{
    lemma_counts(d.after(gamepad, mouse_first), gamepad, mouse_second);
}

/// A gamepad state that differs from the one sent last, in one field or in
/// many, is sent exactly once, first, and whole.
pub proof fn lemma_gamepad_change_sent(d: ChangeDetector, gamepad: XGamepad, mouse: Mouse)
    requires
        gamepad != d.last_gamepad,
    ensures
        ChangeDetector::count_gamepad(d.emitted(gamepad, mouse)) == 1,
        d.emitted(gamepad, mouse)[0] == Packet::Gamepad(gamepad),
{
    lemma_counts(d, gamepad, mouse);
}

/// Mouse non-dedup: a tick whose mouse moved or scrolled sends that mouse
/// update, last, whatever the detector remembers. So two ticks in a row with
/// the same displacement both send it.
pub proof fn lemma_mouse_motion_always_sent(d: ChangeDetector, gamepad: XGamepad, mouse: Mouse)
    requires
        mouse.x != 0 || mouse.y != 0 || mouse.scroll != 0,
    ensures
        ChangeDetector::count_mouse(d.emitted(gamepad, mouse)) == 1,
        d.emitted(gamepad, mouse).last() == Packet::Mouse(mouse),
        ChangeDetector::count_mouse(
            d.after(gamepad, mouse).emitted(gamepad, mouse),
        ) == 1,
        d.after(gamepad, mouse).emitted(gamepad, mouse) == seq![Packet::Mouse(mouse)],
{
    lemma_counts(d, gamepad, mouse);
    lemma_counts(d.after(gamepad, mouse), gamepad, mouse);
}

/// The mouse buttons are sticky: a mouse at rest is sent exactly when its
/// buttons differ from those sent last.
pub proof fn lemma_mouse_buttons_sticky(d: ChangeDetector, gamepad: XGamepad, mouse: Mouse)
    requires
        mouse.x == 0 && mouse.y == 0 && mouse.scroll == 0,
    ensures
        ChangeDetector::count_mouse(d.emitted(gamepad, mouse)) == (if mouse.buttons
            != d.last_mouse_button {
            1nat
        } else {
            0nat
        }),
        ChangeDetector::count_mouse(
            d.after(gamepad, mouse).emitted(gamepad, mouse),
        ) == 0,
{
    lemma_counts(d, gamepad, mouse);
    lemma_counts(d.after(gamepad, mouse), gamepad, mouse);
}

/// What a receiver holds after it has applied a sequence of packets, one
/// after another, to what it held before: the gamepad state and the mouse
/// buttons of the last packet of each kind, and the sum of all motion.
pub struct Replayed {
    pub gamepad: XGamepad,
    pub buttons: MouseButton,
    pub x: int,
    pub y: int,
    pub scroll: int,
}

impl Replayed {
    /// A receiver that has applied nothing: it holds what the detector of a
    /// fresh session remembers, and has not moved.
    pub open spec fn initial() -> Replayed {
        Replayed { gamepad: XGamepad::neutral(), buttons: MouseButton(0), x: 0, y: 0, scroll: 0 }
    }

    /// The receiver after one packet.
    pub open spec fn apply(self, packet: Packet) -> Replayed {
        match packet {
            Packet::Timestamp(_) => self,
            Packet::Gamepad(g) => Replayed { gamepad: g, ..self },
            Packet::Mouse(m) => Replayed {
                buttons: m.buttons,
                x: self.x + m.x,
                y: self.y + m.y,
                scroll: self.scroll + m.scroll,
                ..self
            },
        }
    }

    /// The receiver after a sequence of packets.
    pub open spec fn apply_all(self, packets: Seq<Packet>) -> Replayed
        decreases packets.len(),
    {
        if packets.len() == 0 {
            self
        } else {
            self.apply(packets[0]).apply_all(packets.skip(1))
        }
    }

    /// The receiver that has seen every sample itself: it holds the last
    /// sample's gamepad state and buttons, and has moved by every sample's
    /// displacement.
    pub open spec fn sample_all(self, ticks: Seq<(XGamepad, Mouse)>) -> Replayed
        decreases ticks.len(),
    {
        if ticks.len() == 0 {
            self
        } else {
            (Replayed {
                gamepad: ticks[0].0,
                buttons: ticks[0].1.buttons,
                x: self.x + ticks[0].1.x,
                y: self.y + ticks[0].1.y,
                scroll: self.scroll + ticks[0].1.scroll,
            }).sample_all(ticks.skip(1))
        }
    }
}

/// Applying two sequences of packets one after the other is applying them
/// joined.
pub proof fn lemma_apply_joined(r: Replayed, first: Seq<Packet>, second: Seq<Packet>)
    ensures
        r.apply_all(first + second) == r.apply_all(first).apply_all(second),
    decreases first.len(),
{
    if first.len() == 0 {
        assert(first + second =~= second);
    } else {
        assert((first + second).skip(1) =~= first.skip(1) + second);
        lemma_apply_joined(r.apply(first[0]), first.skip(1), second);
    }
}

/// Nothing is lost by sending changes only. A receiver that holds what the
/// detector remembers, and applies the packets of any sequence of ticks,
/// ends where a receiver would that had seen every sample: with the gamepad
/// state and the mouse buttons of the last tick, and moved and scrolled by
/// the sum of all ticks, each displacement counted once.
pub proof fn lemma_nothing_lost(d: ChangeDetector, r: Replayed, ticks: Seq<(XGamepad, Mouse)>)
    requires
        r.gamepad == d.last_gamepad,
        r.buttons == d.last_mouse_button,
    ensures
        r.apply_all(d.sent(ticks)) == r.sample_all(ticks),
        r.apply_all(d.sent(ticks)).gamepad == d.run(ticks).last_gamepad,
        r.apply_all(d.sent(ticks)).buttons == d.run(ticks).last_mouse_button,
    decreases ticks.len(),
{
    if ticks.len() > 0 {
        let (gamepad, mouse) = ticks[0];
        let first = d.emitted(gamepad, mouse);
        let r1 = r.apply_all(first);
        reveal_with_fuel(Replayed::apply_all, 3);
        assert(r1 == Replayed {
            gamepad,
            buttons: mouse.buttons,
            x: r.x + mouse.x,
            y: r.y + mouse.y,
            scroll: r.scroll + mouse.scroll,
        }) by {
            if first.len() == 2 {
                assert(first.skip(1).skip(1) =~= Seq::<Packet>::empty());
            }
        }
        lemma_apply_joined(r, first, d.after(gamepad, mouse).sent(ticks.skip(1)));
        lemma_nothing_lost(d.after(gamepad, mouse), r1, ticks.skip(1));
    }
}

} // verus!
