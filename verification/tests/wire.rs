use stickdeck::wire::{
    i16_from_le_bytes, i16_to_le_bytes, i8_to_u8, u16_from_le_bytes, u16_to_le_bytes,
    u64_from_le_bytes, u64_to_le_bytes, u8_to_i8,
};

#[test]
fn signed_bytes_are_twos_complement() {
    assert_eq!(i8_to_u8(0), 0);
    assert_eq!(i8_to_u8(1), 1);
    assert_eq!(i8_to_u8(127), 127);
    assert_eq!(i8_to_u8(-1), 255);
    assert_eq!(i8_to_u8(-2), 254);
    assert_eq!(i8_to_u8(-128), 128);
    assert_eq!(u8_to_i8(0), 0);
    assert_eq!(u8_to_i8(127), 127);
    assert_eq!(u8_to_i8(128), -128);
    assert_eq!(u8_to_i8(255), -1);
    for x in i8::MIN..=i8::MAX {
        assert_eq!(u8_to_i8(i8_to_u8(x)), x);
        assert_eq!(i8_to_u8(x), x.to_le_bytes()[0]);
    }
}

#[test]
fn unsigned_sixteen_bits_low_byte_first() {
    assert_eq!(u16_to_le_bytes(0x1234), [0x34, 0x12]);
    assert_eq!(u16_to_le_bytes(0), [0, 0]);
    assert_eq!(u16_to_le_bytes(0xffff), [0xff, 0xff]);
    assert_eq!(u16_to_le_bytes(0x00ff), [0xff, 0x00]);
    assert_eq!(u16_from_le_bytes(0x34, 0x12), 0x1234);
    assert_eq!(u16_from_le_bytes(0xff, 0xff), 0xffff);
    for x in [0u16, 1, 255, 256, 0x8000, 0xfffe, u16::MAX] {
        let b = u16_to_le_bytes(x);
        assert_eq!(b, x.to_le_bytes());
        assert_eq!(u16_from_le_bytes(b[0], b[1]), x);
    }
}

#[test]
fn signed_sixteen_bits_low_byte_first() {
    assert_eq!(i16_to_le_bytes(0x1234), [0x34, 0x12]);
    assert_eq!(i16_to_le_bytes(-1), [0xff, 0xff]);
    assert_eq!(i16_to_le_bytes(-100), [0x9c, 0xff]);
    assert_eq!(i16_to_le_bytes(i16::MIN), [0x00, 0x80]);
    assert_eq!(i16_to_le_bytes(i16::MAX), [0xff, 0x7f]);
    assert_eq!(i16_from_le_bytes(0x9c, 0xff), -100);
    assert_eq!(i16_from_le_bytes(0x00, 0x80), i16::MIN);
    assert_eq!(i16_from_le_bytes(0xff, 0x7f), i16::MAX);
    for x in i16::MIN..=i16::MAX {
        let b = i16_to_le_bytes(x);
        assert_eq!(b, x.to_le_bytes());
        assert_eq!(i16_from_le_bytes(b[0], b[1]), x);
    }
}

#[test]
fn sixty_four_bits_low_byte_first() {
    assert_eq!(u64_to_le_bytes(0x0102_0304_0506_0708), [8, 7, 6, 5, 4, 3, 2, 1]);
    assert_eq!(u64_to_le_bytes(0), [0; 8]);
    assert_eq!(u64_to_le_bytes(u64::MAX), [0xff; 8]);
    assert_eq!(u64_from_le_bytes(&[8, 7, 6, 5, 4, 3, 2, 1], 0), 0x0102_0304_0506_0708);
    assert_eq!(u64_from_le_bytes(&[9, 9, 1, 0, 0, 0, 0, 0, 0, 0x80, 9], 2), 0x8000_0000_0000_0001);
    for x in [0u64, 1, 0xff, 0x100, 0xdead_beef, 1 << 63, u64::MAX - 1, u64::MAX] {
        let b = u64_to_le_bytes(x);
        assert_eq!(b, x.to_le_bytes());
        assert_eq!(u64_from_le_bytes(&b, 0), x);
    }
}
