use mumblelink_reader::layout::{
    read_bytes, read_u16, read_u32, read_vector, read_wide_units, record_size, unit_bytes,
    CONTEXT_BYTES, DESCRIPTION_UNITS, IDENTITY_UNITS, NAME_UNITS,
};
use mumblelink_reader::wide_text::WideEncoding;

#[test]
fn record_sizes_are_those_of_the_c_struct() {
    assert_eq!(record_size(WideEncoding::Utf16), 5460);
    assert_eq!(record_size(WideEncoding::Utf32), 10580);
    assert_eq!(unit_bytes(WideEncoding::Utf16), 2);
    assert_eq!(unit_bytes(WideEncoding::Utf32), 4);
}

#[test]
fn record_size_is_the_sum_of_the_fields() {
    for wide in [WideEncoding::Utf16, WideEncoding::Utf32] {
        let w = unit_bytes(wide);
        let sum = 4 + 4 + 36 + NAME_UNITS * w + 36 + IDENTITY_UNITS * w + 4 + CONTEXT_BYTES
            + DESCRIPTION_UNITS * w;
        assert_eq!(record_size(wide), sum);
    }
}

#[test]
fn numbers_are_read_least_significant_byte_first() {
    let bytes: [u8; 6] = [0xFF, 0x78, 0x56, 0x34, 0x12, 0xAB];
    assert_eq!(read_u32(&bytes, 1), 0x12345678);
    assert_eq!(read_u32(&bytes, 1), u32::from_le_bytes([0x78, 0x56, 0x34, 0x12]));
    assert_eq!(read_u16(&bytes, 1), 0x5678);
    assert_eq!(read_u16(&bytes, 4), 0xAB12);
    assert_eq!(read_u32(&[0xFF, 0xFF, 0xFF, 0xFF], 0), u32::MAX);
    assert_eq!(read_u16(&[0xFF, 0xFF], 0), u16::MAX);
}

#[test]
fn numbers_are_read_at_odd_addresses() {
    let mut bytes = vec![0u8; 9];
    bytes[3..7].copy_from_slice(&0xDEADBEEFu32.to_le_bytes());
    assert_eq!(read_u32(&bytes, 3), 0xDEADBEEF);
}

#[test]
fn vector_holds_the_bit_patterns_of_three_numbers() {
    let mut bytes = vec![0u8; 14];
    bytes[2..6].copy_from_slice(&1.0f32.to_le_bytes());
    bytes[6..10].copy_from_slice(&(-2.5f32).to_le_bytes());
    bytes[10..14].copy_from_slice(&39.3701f32.to_le_bytes());
    let v = read_vector(&bytes, 2);
    assert_eq!(v, [1.0f32.to_bits(), (-2.5f32).to_bits(), 39.3701f32.to_bits()]);
    assert_eq!(f32::from_bits(v[2]), 39.3701f32);
}

#[test]
fn bytes_are_copied_from_the_given_place() {
    let bytes: Vec<u8> = (0..=255u8).collect();
    let out: [u8; 4] = read_bytes::<4>(&bytes, 10);
    assert_eq!(out, [10, 11, 12, 13]);
    let all: [u8; 256] = read_bytes::<256>(&bytes, 0);
    assert_eq!(all.to_vec(), bytes);
}

#[test]
fn wide_units_are_read_in_either_width() {
    let bytes: [u8; 9] = [0xEE, 0x41, 0x00, 0x3D, 0xD8, 0x00, 0xDE, 0x01, 0x00];
    let narrow: [u32; 3] = read_wide_units::<3>(&bytes, 1, WideEncoding::Utf16);
    assert_eq!(narrow, [0x0041, 0xD83D, 0xDE00]);
    let wide: [u32; 2] = read_wide_units::<2>(&bytes, 1, WideEncoding::Utf32);
    assert_eq!(wide, [0xD83D0041, 0x0001DE00]);
}
