use x86emu::bytes::{
    convert_i16_to_u8vec, convert_i32_to_u8vec, convert_i64_to_u8vec, convert_i8_to_u8vec,
};

#[test]
fn byte_sequences_have_exactly_width_over_eight_bytes() {
    assert_eq!(convert_i8_to_u8vec(0x7f).len(), 1);
    assert_eq!(convert_i16_to_u8vec(0x7fff).len(), 2);
    assert_eq!(convert_i32_to_u8vec(-1).len(), 4);
    assert_eq!(convert_i64_to_u8vec(-1).len(), 8);
}

#[test]
fn byte_sequences_are_little_endian() {
    assert_eq!(convert_i8_to_u8vec(0x12), vec![0x12]);
    assert_eq!(convert_i16_to_u8vec(0x1234), vec![0x34, 0x12]);
    assert_eq!(convert_i32_to_u8vec(0x1234_5678), vec![0x78, 0x56, 0x34, 0x12]);
    assert_eq!(
        convert_i64_to_u8vec(0x0102_0304_0506_0708),
        vec![0x08, 0x07, 0x06, 0x05, 0x04, 0x03, 0x02, 0x01]
    );
}

#[test]
fn negative_values_serialize_as_twos_complement() {
    assert_eq!(convert_i8_to_u8vec(-1), vec![0xff]);
    assert_eq!(convert_i16_to_u8vec(-2), vec![0xfe, 0xff]);
    assert_eq!(convert_i32_to_u8vec(-2), vec![0xfe, 0xff, 0xff, 0xff]);
    assert_eq!(
        convert_i64_to_u8vec(-2),
        vec![0xfe, 0xff, 0xff, 0xff, 0xff, 0xff, 0xff, 0xff]
    );
}

#[test]
fn decoding_little_endian_reproduces_the_value() {
    let cases32: [i32; 5] = [0, 1, -1, i32::MIN, 0x1234_5678];
    for v in cases32.iter() {
        let b = convert_i32_to_u8vec(*v);
        let w = (b[0] as u32)
            | ((b[1] as u32) << 8)
            | ((b[2] as u32) << 16)
            | ((b[3] as u32) << 24);
        assert_eq!(w as i32, *v);
    }
    let cases64: [i64; 5] = [0, 1, -1, i64::MIN, 0x0102_0304_0506_0708];
    for v in cases64.iter() {
        let b = convert_i64_to_u8vec(*v);
        let mut w: u64 = 0;
        for k in 0..8 {
            w |= (b[k] as u64) << (8 * k);
        }
        assert_eq!(w as i64, *v);
    }
    let b = convert_i8_to_u8vec(-128);
    assert_eq!(b[0] as i8, -128);
    let b = convert_i16_to_u8vec(-32768);
    assert_eq!(((b[0] as u16) | ((b[1] as u16) << 8)) as i16, -32768);
}

#[test]
fn narrow_widths_keep_the_low_bits() {
    // the 8- and 16-bit conversions take the low bits of the wider input
    assert_eq!(convert_i8_to_u8vec(0x1234), vec![0x34]);
    assert_eq!(convert_i16_to_u8vec(0x0012_3456), vec![0x56, 0x34]);
}
