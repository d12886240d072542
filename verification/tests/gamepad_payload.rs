use stickdeck::{deserialize, serialize, XButtons, XGamepad};

fn assert_serialize_deserialize(gamepad: &XGamepad) {
    assert_eq!(gamepad, &deserialize(&serialize(gamepad)));
}

#[test]
fn test_serialize_deserialize() {
    assert_eq!(serialize(&XGamepad::default()), [0; 12]);
    assert_eq!(deserialize(&[0; 12]), XGamepad::default());

    let mut gamepad = XGamepad::default();
    assert_serialize_deserialize(&gamepad);
    gamepad.buttons.raw = 0x1234;
    assert_serialize_deserialize(&gamepad);
    gamepad.left_trigger = 0x12;
    assert_serialize_deserialize(&gamepad);
    gamepad.right_trigger = 0x34;
    assert_serialize_deserialize(&gamepad);
    gamepad.thumb_lx = 0x1234;
    assert_serialize_deserialize(&gamepad);
    gamepad.thumb_ly = 0x5678;
    assert_serialize_deserialize(&gamepad);
    gamepad.thumb_rx = -0x1234i16;
    assert_serialize_deserialize(&gamepad);
    gamepad.thumb_ry = -0x5678i16;
    assert_serialize_deserialize(&gamepad);
}

#[test]
fn gamepad_payload_is_little_endian() {
    let gamepad = XGamepad {
        buttons: XButtons { raw: 0x1234 },
        left_trigger: 0x12,
        right_trigger: 0x34,
        thumb_lx: 0x1234,
        thumb_ly: 0x5678,
        thumb_rx: -0x1234,
        thumb_ry: -0x5678,
    };
    assert_eq!(
        serialize(&gamepad),
        [0x34, 0x12, 0x12, 0x34, 0x34, 0x12, 0x78, 0x56, 0xcc, 0xed, 0x88, 0xa9]
    );
}

#[test]
fn gamepad_payload_extremes() {
    let mut gamepad = XGamepad::default();
    gamepad.buttons.raw = 0xffff;
    gamepad.left_trigger = 255;
    gamepad.right_trigger = 255;
    gamepad.thumb_lx = i16::MIN;
    gamepad.thumb_ly = i16::MAX;
    gamepad.thumb_rx = -1;
    gamepad.thumb_ry = 1;
    let bytes = serialize(&gamepad);
    assert_eq!(
        bytes,
        [0xff, 0xff, 0xff, 0xff, 0x00, 0x80, 0xff, 0x7f, 0xff, 0xff, 0x01, 0x00]
    );
    assert_eq!(deserialize(&bytes), gamepad);
}

#[test]
fn gamepad_deserialize_reads_each_field() {
    let gamepad = deserialize(&[0x01, 0x80, 7, 9, 0x00, 0x80, 0xff, 0x7f, 0x9c, 0xff, 0x64, 0x00]);
    assert_eq!(gamepad.buttons.raw, 0x8001);
    assert_eq!(gamepad.left_trigger, 7);
    assert_eq!(gamepad.right_trigger, 9);
    assert_eq!(gamepad.thumb_lx, -32768);
    assert_eq!(gamepad.thumb_ly, 32767);
    assert_eq!(gamepad.thumb_rx, -100);
    assert_eq!(gamepad.thumb_ry, 100);
}

#[test]
fn button_masks() {
    assert_eq!(XButtons::UP, 0x0001);
    assert_eq!(XButtons::DOWN, 0x0002);
    assert_eq!(XButtons::LEFT, 0x0004);
    assert_eq!(XButtons::RIGHT, 0x0008);
    assert_eq!(XButtons::START, 0x0010);
    assert_eq!(XButtons::BACK, 0x0020);
    assert_eq!(XButtons::LTHUMB, 0x0040);
    assert_eq!(XButtons::RTHUMB, 0x0080);
    assert_eq!(XButtons::LB, 0x0100);
    assert_eq!(XButtons::RB, 0x0200);
    assert_eq!(XButtons::GUIDE, 0x0400);
    assert_eq!(XButtons::A, 0x1000);
    assert_eq!(XButtons::B, 0x2000);
    assert_eq!(XButtons::X, 0x4000);
    assert_eq!(XButtons::Y, 0x8000);
}

#[test]
fn buttons_contains() {
    let buttons = XButtons { raw: XButtons::A | XButtons::UP };
    assert!(buttons.contains(XButtons::A));
    assert!(buttons.contains(XButtons::UP));
    assert!(buttons.contains(XButtons::A | XButtons::UP));
    assert!(!buttons.contains(XButtons::B));
    assert!(!buttons.contains(XButtons::A | XButtons::B));
    assert!(buttons.contains(0));
    assert!(!XButtons::default().contains(XButtons::Y));
}
