use stickdeck::{ChangeDetector, Mouse, MouseButton, Packet, XButtons, XGamepad};

fn pad(buttons: u16, lt: u8) -> XGamepad {
    XGamepad {
        buttons: XButtons { raw: buttons },
        left_trigger: lt,
        right_trigger: 0,
        thumb_lx: 0,
        thumb_ly: 0,
        thumb_rx: 0,
        thumb_ry: 0,
    }
}

fn mouse(x: i8, y: i8, buttons: u8, scroll: i8) -> Mouse {
    Mouse { x, y, buttons: MouseButton(buttons), scroll }
}

#[test]
fn fresh_detector_remembers_a_controller_at_rest() {
    let d = ChangeDetector::new();
    assert_eq!(d.last_gamepad, XGamepad::default());
    assert_eq!(d.last_mouse_button, MouseButton(0));
}

#[test]
fn idle_tick_sends_nothing() {
    let mut d = ChangeDetector::new();
    assert_eq!(d.tick(XGamepad::default(), Mouse::default()), vec![]);
    assert_eq!(d, ChangeDetector::new());
}

#[test]
fn identical_gamepad_is_sent_once() {
    let mut d = ChangeDetector::new();
    let g = pad(XButtons::A, 0);
    assert_eq!(d.tick(g, Mouse::default()), vec![Packet::Gamepad(g)]);
    assert_eq!(d.tick(g, Mouse::default()), vec![]);
    assert_eq!(d.tick(g, Mouse::default()), vec![]);
}

#[test]
fn one_changed_field_sends_the_whole_state() {
    let mut d = ChangeDetector::new();
    let before = pad(XButtons::A | XButtons::LB, 0);
    d.tick(before, Mouse::default());
    let after = pad(XButtons::A | XButtons::LB, 200);
    assert_eq!(d.tick(after, Mouse::default()), vec![Packet::Gamepad(after)]);
    assert_eq!(d.last_gamepad, after);
}

#[test]
fn each_gamepad_field_counts() {
    let base = XGamepad::default();
    let variants = [
        XGamepad { buttons: XButtons { raw: 1 }, ..base },
        XGamepad { left_trigger: 1, ..base },
        XGamepad { right_trigger: 1, ..base },
        XGamepad { thumb_lx: 1, ..base },
        XGamepad { thumb_ly: -1, ..base },
        XGamepad { thumb_rx: 1, ..base },
        XGamepad { thumb_ry: -1, ..base },
    ];
    for g in variants {
        let mut d = ChangeDetector::new();
        assert_eq!(d.tick(g, Mouse::default()), vec![Packet::Gamepad(g)]);
    }
}

#[test]
fn gamepad_returning_to_rest_is_a_change() {
    let mut d = ChangeDetector::new();
    let g = pad(XButtons::B, 10);
    d.tick(g, Mouse::default());
    assert_eq!(
        d.tick(XGamepad::default(), Mouse::default()),
        vec![Packet::Gamepad(XGamepad::default())]
    );
}

#[test]
fn repeated_mouse_motion_is_sent_each_tick() {
    let mut d = ChangeDetector::new();
    let m = mouse(5, 0, 0, 0);
    assert_eq!(d.tick(XGamepad::default(), m), vec![Packet::Mouse(m)]);
    assert_eq!(d.tick(XGamepad::default(), m), vec![Packet::Mouse(m)]);
    assert_eq!(d.tick(XGamepad::default(), m), vec![Packet::Mouse(m)]);
}

#[test]
fn each_mouse_delta_counts() {
    for m in [mouse(1, 0, 0, 0), mouse(0, -1, 0, 0), mouse(0, 0, 0, 1)] {
        let mut d = ChangeDetector::new();
        assert_eq!(d.tick(XGamepad::default(), m), vec![Packet::Mouse(m)]);
        assert_eq!(d.tick(XGamepad::default(), m), vec![Packet::Mouse(m)]);
    }
}

#[test]
fn mouse_buttons_are_sent_on_change_only() {
    let mut d = ChangeDetector::new();
    let held = mouse(0, 0, 1, 0);
    assert_eq!(d.tick(XGamepad::default(), held), vec![Packet::Mouse(held)]);
    assert_eq!(d.last_mouse_button, MouseButton(1));
    assert_eq!(d.tick(XGamepad::default(), held), vec![]);
    let released = mouse(0, 0, 0, 0);
    assert_eq!(d.tick(XGamepad::default(), released), vec![Packet::Mouse(released)]);
    assert_eq!(d.tick(XGamepad::default(), released), vec![]);
}

#[test]
fn motion_with_held_button_keeps_the_button() {
    let mut d = ChangeDetector::new();
    let drag = mouse(4, 4, 2, 0);
    assert_eq!(d.tick(XGamepad::default(), drag), vec![Packet::Mouse(drag)]);
    assert_eq!(d.tick(XGamepad::default(), drag), vec![Packet::Mouse(drag)]);
    let hold = mouse(0, 0, 2, 0);
    assert_eq!(d.tick(XGamepad::default(), hold), vec![]);
}

#[test]
fn both_kinds_in_one_tick_gamepad_first() {
    let mut d = ChangeDetector::new();
    let g = pad(XButtons::X, 3);
    let m = mouse(1, 2, 3, 4);
    assert_eq!(d.tick(g, m), vec![Packet::Gamepad(g), Packet::Mouse(m)]);
    assert_eq!(d.tick(g, m), vec![Packet::Mouse(m)]);
}

#[test]
fn gamepad_and_mouse_are_independent() {
    let mut d = ChangeDetector::new();
    let g = pad(XButtons::Y, 0);
    assert_eq!(d.tick(g, Mouse::default()), vec![Packet::Gamepad(g)]);
    let m = mouse(0, 0, 0, -3);
    assert_eq!(d.tick(g, m), vec![Packet::Mouse(m)]);
    assert_eq!(d.last_gamepad, g);
}

#[test]
fn a_receiver_of_the_packets_loses_nothing() {
    let ticks = [
        (pad(0, 0), mouse(0, 0, 0, 0)),
        (pad(XButtons::A, 0), mouse(5, 0, 0, 0)),
        (pad(XButtons::A, 0), mouse(5, 0, 0, 0)),
        (pad(XButtons::A, 9), mouse(0, -3, 1, 0)),
        (pad(XButtons::A, 9), mouse(0, 0, 1, 0)),
        (pad(0, 0), mouse(0, 0, 1, 2)),
        (pad(0, 0), mouse(-7, 1, 0, 2)),
        (pad(XButtons::B, 0), mouse(0, 0, 0, 0)),
        (pad(XButtons::B, 0), mouse(0, 0, 0, 0)),
    ];
    let mut detector = ChangeDetector::new();
    let (mut gamepad, mut buttons) = (XGamepad::default(), MouseButton(0));
    let (mut x, mut y, mut scroll) = (0i32, 0i32, 0i32);
    let (mut sampled_x, mut sampled_y, mut sampled_scroll) = (0i32, 0i32, 0i32);
    let mut sent = 0;
    for (g, m) in ticks {
        sampled_x += i32::from(m.x);
        sampled_y += i32::from(m.y);
        sampled_scroll += i32::from(m.scroll);
        for packet in detector.tick(g, m) {
            sent += 1;
            match packet {
                Packet::Gamepad(state) => gamepad = state,
                Packet::Mouse(update) => {
                    buttons = update.buttons;
                    x += i32::from(update.x);
                    y += i32::from(update.y);
                    scroll += i32::from(update.scroll);
                }
                Packet::Timestamp(_) => panic!("a tick sends no timestamp"),
            }
        }
        assert_eq!(gamepad, g);
        assert_eq!(buttons, m.buttons);
        assert_eq!((x, y, scroll), (sampled_x, sampled_y, sampled_scroll));
    }
    assert_eq!(sent, 4 + 5);
}
