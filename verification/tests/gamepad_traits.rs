use stickdeck::{DeserializableGamepad, SerializableGamepad, XGamepad};

fn assert_serialize_deserialize(gamepad: &XGamepad) {
    let mut buf = [0; 12];
    gamepad.serialize(&mut buf);
    assert_eq!(gamepad, &XGamepad::deserialize(&buf));
}

#[test]
fn test_serialize_deserialize_test_serialize_deserialize() {
    let mut gamepad = XGamepad::default();
    assert_serialize_deserialize(&gamepad);
    gamepad.buttons.raw = 0x1234;
    assert_serialize_deserialize(&gamepad);
    gamepad.left_trigger = 0x12;
    assert_serialize_deserialize(&gamepad);
    gamepad.right_trigger = 0x34;
    assert_serialize_deserialize(&gamepad);
    gamepad.thumb_lx = 0x1234;
    assert_serialize_deserialize(&gamepad);
    gamepad.thumb_ly = 0x5678;
    assert_serialize_deserialize(&gamepad);
    gamepad.thumb_rx = -0x1234i16;
    assert_serialize_deserialize(&gamepad);
    gamepad.thumb_ry = -0x5678i16;
    assert_serialize_deserialize(&gamepad);
}

#[test]
fn gamepad_serialize_leaves_the_rest_of_the_buffer() {
    let mut gamepad = XGamepad::default();
    gamepad.buttons.raw = 0x1000;
    gamepad.thumb_lx = 100;
    gamepad.thumb_ly = -100;
    let mut buf = [0xaau8; 15];
    gamepad.serialize(&mut buf);
    assert_eq!(
        buf,
        [0x00, 0x10, 0, 0, 100, 0, 0x9c, 0xff, 0, 0, 0, 0, 0xaa, 0xaa, 0xaa]
    );
}

#[test]
fn gamepad_deserialize_reads_only_twelve_bytes() {
    let buf = [0x34u8, 0x12, 1, 2, 3, 0, 4, 0, 5, 0, 6, 0, 0xff, 0xff];
    let gamepad = XGamepad::deserialize(&buf);
    assert_eq!(gamepad.buttons.raw, 0x1234);
    assert_eq!(gamepad.left_trigger, 1);
    assert_eq!(gamepad.right_trigger, 2);
    assert_eq!(gamepad.thumb_lx, 3);
    assert_eq!(gamepad.thumb_ly, 4);
    assert_eq!(gamepad.thumb_rx, 5);
    assert_eq!(gamepad.thumb_ry, 6);
}
