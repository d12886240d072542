use stickdeck::{
    decode, encode, DeserializablePacket, Error, Mouse, MouseButton, Packet, SerializablePacket,
    XButtons, XGamepad, PACKET_FRAME_SIZE,
};

fn pad(buttons: u16, lt: u8, rt: u8, lx: i16, ly: i16, rx: i16, ry: i16) -> XGamepad {
    XGamepad {
        buttons: XButtons { raw: buttons },
        left_trigger: lt,
        right_trigger: rt,
        thumb_lx: lx,
        thumb_ly: ly,
        thumb_rx: rx,
        thumb_ry: ry,
    }
}

fn mouse(x: i8, y: i8, buttons: u8, scroll: i8) -> Mouse {
    Mouse { x, y, buttons: MouseButton(buttons), scroll }
}

#[test]
fn frame_size_is_sixteen() {
    assert_eq!(PACKET_FRAME_SIZE, 16);
    assert_eq!(encode(&Packet::Timestamp(0)).len(), 16);
    assert_eq!(encode(&Packet::Gamepad(XGamepad::default())).len(), 16);
    assert_eq!(encode(&Packet::Mouse(Mouse::default())).len(), 16);
}

#[test]
fn encode_timestamp_exact_bytes() {
    assert_eq!(
        encode(&Packet::Timestamp(0x0102_0304_0506_0708)),
        [0, 8, 7, 6, 5, 4, 3, 2, 1, 0, 0, 0, 0, 0, 0, 0]
    );
    assert_eq!(
        encode(&Packet::Timestamp(u64::MAX)),
        [0, 255, 255, 255, 255, 255, 255, 255, 255, 0, 0, 0, 0, 0, 0, 0]
    );
    assert_eq!(encode(&Packet::Timestamp(0)), [0u8; 16]);
}

#[test]
fn encode_gamepad_exact_bytes() {
    let g = pad(0x1000, 0, 0, 100, -100, 0, 0);
    assert_eq!(
        encode(&Packet::Gamepad(g)),
        [1, 0x00, 0x10, 0, 0, 100, 0, 0x9c, 0xff, 0, 0, 0, 0, 0, 0, 0]
    );
}

#[test]
fn encode_mouse_exact_bytes() {
    assert_eq!(
        encode(&Packet::Mouse(mouse(3, -2, 1, 0))),
        [2, 3, 0xfe, 1, 0, 0, 0, 0, 0, 0, 0, 0, 0, 0, 0, 0]
    );
    assert_eq!(
        encode(&Packet::Mouse(mouse(-128, 127, 0xff, -1))),
        [2, 0x80, 0x7f, 0xff, 0xff, 0, 0, 0, 0, 0, 0, 0, 0, 0, 0, 0]
    );
}

#[test]
fn round_trip_gamepad() {
    let cases = [
        XGamepad::default(),
        pad(0x1000, 0, 0, 100, -100, 0, 0),
        pad(0xffff, 255, 255, i16::MIN, i16::MAX, -1, 1),
        pad(0x8001, 200, 1, 256, -256, 255, -255),
    ];
    for g in cases {
        assert_eq!(decode(&encode(&Packet::Gamepad(g))), Ok(Packet::Gamepad(g)));
    }
}

#[test]
fn round_trip_mouse() {
    let cases = [
        Mouse::default(),
        mouse(3, -2, 1, 0),
        mouse(-128, 127, 0xff, -128),
        mouse(127, -128, 2, 127),
        mouse(-1, -1, 3, -1),
    ];
    for m in cases {
        assert_eq!(decode(&encode(&Packet::Mouse(m))), Ok(Packet::Mouse(m)));
    }
}

#[test]
fn round_trip_timestamp() {
    for t in [0u64, 1, 255, 256, 0x0102_0304_0506_0708, u64::MAX, 1 << 63] {
        assert_eq!(decode(&encode(&Packet::Timestamp(t))), Ok(Packet::Timestamp(t)));
    }
}

#[test]
fn round_trip_every_signed_byte() {
    for x in i8::MIN..=i8::MAX {
        let m = mouse(x, x.wrapping_neg(), x as u8, x.wrapping_add(1));
        assert_eq!(decode(&encode(&Packet::Mouse(m))), Ok(Packet::Mouse(m)));
    }
}

#[test]
fn unknown_tag_is_refused_with_its_byte() {
    let mut frame = [0u8; 16];
    frame[0] = 99;
    assert_eq!(decode(&frame), Err(Error::UnknownTag(99)));
    frame[0] = 3;
    assert_eq!(decode(&frame), Err(Error::UnknownTag(3)));
    frame[0] = 255;
    assert_eq!(decode(&frame), Err(Error::UnknownTag(255)));
}

#[test]
fn every_tag_above_two_is_unknown() {
    for tag in 3u8..=255 {
        let mut frame = [0x5au8; 16];
        frame[0] = tag;
        assert_eq!(decode(&frame), Err(Error::UnknownTag(tag)));
    }
    for tag in 0u8..=2 {
        let mut frame = [0x5au8; 16];
        frame[0] = tag;
        assert!(decode(&frame).is_ok());
    }
}

#[test]
fn decode_ignores_the_padding() {
    let mut frame = encode(&Packet::Mouse(mouse(5, 0, 0, 0)));
    for b in frame.iter_mut().skip(5) {
        *b = 0xee;
    }
    assert_eq!(decode(&frame), Ok(Packet::Mouse(mouse(5, 0, 0, 0))));

    let mut frame = encode(&Packet::Timestamp(7));
    for b in frame.iter_mut().skip(9) {
        *b = 0xee;
    }
    assert_eq!(decode(&frame), Ok(Packet::Timestamp(7)));

    let g = pad(1, 2, 3, 4, 5, 6, 7);
    let mut frame = encode(&Packet::Gamepad(g));
    for b in frame.iter_mut().skip(13) {
        *b = 0xee;
    }
    assert_eq!(decode(&frame), Ok(Packet::Gamepad(g)));
}

#[test]
fn decode_exact_values() {
    assert_eq!(
        decode(&[0, 1, 0, 0, 0, 0, 0, 0, 0x80, 0, 0, 0, 0, 0, 0, 0]),
        Ok(Packet::Timestamp(0x8000_0000_0000_0001))
    );
    assert_eq!(
        decode(&[1, 0x00, 0x10, 0, 0, 100, 0, 0x9c, 0xff, 0, 0, 0, 0, 0, 0, 0]),
        Ok(Packet::Gamepad(pad(0x1000, 0, 0, 100, -100, 0, 0)))
    );
    assert_eq!(
        decode(&[2, 3, 0xfe, 1, 0, 0, 0, 0, 0, 0, 0, 0, 0, 0, 0, 0]),
        Ok(Packet::Mouse(mouse(3, -2, 1, 0)))
    );
}

#[test]
fn packet_serialize_overwrites_a_used_buffer() {
    let mut buf = [0u8; PACKET_FRAME_SIZE];
    Packet::Gamepad(pad(0xffff, 255, 255, -1, -1, -1, -1)).serialize(&mut buf);
    assert_eq!(buf, [1, 255, 255, 255, 255, 255, 255, 255, 255, 255, 255, 255, 255, 0, 0, 0]);
    Packet::Mouse(mouse(1, 2, 3, 4)).serialize(&mut buf);
    assert_eq!(buf, [2, 1, 2, 3, 4, 0, 0, 0, 0, 0, 0, 0, 0, 0, 0, 0]);
    Packet::Timestamp(1).serialize(&mut buf);
    assert_eq!(buf, [0, 1, 0, 0, 0, 0, 0, 0, 0, 0, 0, 0, 0, 0, 0, 0]);
}

#[test]
fn packet_deserialize_agrees_with_decode() {
    let frame = encode(&Packet::Mouse(mouse(9, -9, 2, 1)));
    assert_eq!(Packet::deserialize(&frame), decode(&frame));
    let mut bad = frame;
    bad[0] = 42;
    assert_eq!(Packet::deserialize(&bad), Err(Error::UnknownTag(42)));
}

#[test]
fn encoding_what_a_frame_decodes_to_gives_the_frame_with_zero_padding() {
    let frames: [[u8; 16]; 3] = [
        [0, 1, 2, 3, 4, 5, 6, 7, 8, 0, 0, 0, 0, 0, 0, 0],
        [1, 1, 2, 3, 4, 5, 6, 7, 8, 9, 10, 11, 12, 0, 0, 0],
        [2, 0x80, 0x7f, 0xff, 0x81, 0, 0, 0, 0, 0, 0, 0, 0, 0, 0, 0],
    ];
    for frame in frames {
        let packet = decode(&frame).unwrap();
        assert_eq!(encode(&packet), frame);
        let mut noisy = frame;
        noisy[15] = 0xff;
        assert_eq!(decode(&noisy), Ok(packet));
        assert_eq!(encode(&decode(&noisy).unwrap()), frame);
    }
}

#[test]
fn different_packets_have_different_frames() {
    let packets = [
        Packet::Timestamp(0),
        Packet::Timestamp(1),
        Packet::Gamepad(XGamepad::default()),
        Packet::Gamepad(pad(1, 0, 0, 0, 0, 0, 0)),
        Packet::Gamepad(pad(0, 0, 0, 0, 0, 0, -1)),
        Packet::Mouse(Mouse::default()),
        Packet::Mouse(mouse(0, 0, 0, 1)),
        Packet::Mouse(mouse(-1, 0, 0, 0)),
    ];
    for (i, p) in packets.iter().enumerate() {
        for (j, q) in packets.iter().enumerate() {
            assert_eq!(encode(p) == encode(q), i == j);
        }
    }
}
