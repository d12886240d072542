use stickdeck::{check_handle, Config, Error, Mouse, MouseButton};

#[test]
fn mouse_button_bits() {
    assert_eq!(MouseButton::MOUSE_LEFT_BUTTON, 1);
    assert_eq!(MouseButton::MOUSE_RIGHT_BUTTON, 2);
    let mut b = MouseButton::default();
    assert_eq!(b, MouseButton(0));
    assert!(!b.is_left_button_down());
    assert!(!b.is_right_button_down());
    b.left_button_down();
    assert_eq!(b, MouseButton(1));
    assert!(b.is_left_button_down());
    assert!(!b.is_right_button_down());
    b.right_button_down();
    assert_eq!(b, MouseButton(3));
    assert!(b.is_left_button_down());
    assert!(b.is_right_button_down());
    b.left_button_down();
    assert_eq!(b, MouseButton(3));
}

#[test]
fn mouse_button_down_keeps_the_other_bits() {
    let mut b = MouseButton(0xf0);
    b.right_button_down();
    assert_eq!(b, MouseButton(0xf2));
    assert!(!b.is_left_button_down());
    b.left_button_down();
    assert_eq!(b, MouseButton(0xf3));
}

#[test]
fn mouse_payload_exact_bytes() {
    let m = Mouse { x: 3, y: -2, buttons: MouseButton(1), scroll: 0 };
    let mut buf = [0x77u8; 6];
    m.serialize(&mut buf);
    assert_eq!(buf, [3, 0xfe, 1, 0, 0x77, 0x77]);
    let m = Mouse { x: -128, y: 127, buttons: MouseButton(0xff), scroll: -1 };
    let mut buf = [0u8; 4];
    m.serialize(&mut buf);
    assert_eq!(buf, [0x80, 0x7f, 0xff, 0xff]);
}

#[test]
fn mouse_deserialize_exact_values() {
    assert_eq!(
        Mouse::deserialize(&[0x80, 0x7f, 2, 0xff, 9, 9]),
        Mouse { x: -128, y: 127, buttons: MouseButton(2), scroll: -1 }
    );
    assert_eq!(Mouse::deserialize(&[0, 0, 0, 0]), Mouse::default());
}

#[test]
fn mouse_payload_round_trip() {
    for x in i8::MIN..=i8::MAX {
        let m = Mouse { x, y: x.wrapping_mul(3), buttons: MouseButton(x as u8), scroll: !x };
        let mut buf = [0u8; 4];
        m.serialize(&mut buf);
        assert_eq!(Mouse::deserialize(&buf), m);
    }
}

#[test]
fn handle_zero_is_invalid() {
    assert_eq!(check_handle(0), Err(Error::InvalidHandle));
    assert_eq!(check_handle(1), Ok(1));
    assert_eq!(check_handle(u64::MAX), Ok(u64::MAX));
}

#[test]
fn error_texts() {
    assert_eq!(Error::InvalidHandle.to_string(), "Invalid handle: handle value is 0");
    assert_eq!(
        Error::UnknownTag(99).to_string(),
        "Unknown tag: the first byte of the frame names no packet"
    );
    assert_eq!(Error::PeerGone.to_string(), "Peer gone: the other end of the relay is closed");
}

#[test]
fn default_config_samples_every_three_milliseconds() {
    assert_eq!(Config::default().input_update_interval_ms, 3);
    assert_eq!(Config::default(), Config { input_update_interval_ms: 3 });
}
