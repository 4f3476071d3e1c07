use hx711_spi::decode::{decode_output, extract};
use hx711_spi::signal::{encode, Mode};

#[test]
fn test_decode_alternating_convert_to_zeros() {
    assert_eq!(decode_output(&[0x55, 0x55, 0x55, 0x55, 0x55, 0x55, 0x55]), 0);
}

#[test]
fn test_decode_alternating_convert_to_ones() {
    assert_eq!(decode_output(&[0xAA, 0xAA, 0xAA, 0xAA, 0xAA, 0xAA, 0xAA]), -1);
}

#[test]
fn test_decode_all_ones() {
    assert_eq!(decode_output(&[0xFF, 0xFF, 0xFF, 0xFF, 0xFF, 0xFF, 0xFF]), -1);
}

#[test]
fn test_decode_test_pattern() {
    let buffer = [
        0b00100111, 0b00100111, 0b00100111, 0b00100111, 0b00100111, 0b00100111, 0b00100111,
    ];
    assert_eq!(decode_output(&buffer), 0b0000_0000_0101_0101_0101_0101_0101_0101i32);
}

#[test]
fn decode_all_zeros() {
    assert_eq!(decode_output(&[0x00; 7]), 0);
}

#[test]
fn decode_largest_sample() {
    // sample bits 0111 1111 ... 1111
    assert_eq!(decode_output(&[0x2A, 0xAA, 0xAA, 0xAA, 0xAA, 0xAA, 0x00]), 0x7F_FFFF);
    assert_eq!(decode_output(&[0x2A, 0xAA, 0xAA, 0xAA, 0xAA, 0xAA, 0x00]), 8_388_607);
}

#[test]
fn decode_smallest_sample() {
    // sample bits 1000 0000 ... 0000
    assert_eq!(decode_output(&[0x80, 0x00, 0x00, 0x00, 0x00, 0x00, 0x00]), -0x80_0000);
    assert_eq!(decode_output(&[0x80, 0x00, 0x00, 0x00, 0x00, 0x00, 0x00]), -8_388_608);
}

#[test]
fn decode_weighs_bytes_from_the_front() {
    assert_eq!(decode_output(&[0x00, 0x00, 0x00, 0x00, 0x00, 0x02, 0x00]), 1);
    assert_eq!(decode_output(&[0x00, 0x00, 0x00, 0x00, 0x02, 0x00, 0x00]), 0x10);
    assert_eq!(decode_output(&[0x00, 0x00, 0x00, 0x02, 0x00, 0x00, 0x00]), 0x100);
    assert_eq!(decode_output(&[0x00, 0x00, 0x02, 0x00, 0x00, 0x00, 0x00]), 0x1000);
    assert_eq!(decode_output(&[0x00, 0x02, 0x00, 0x00, 0x00, 0x00, 0x00]), 0x1_0000);
    assert_eq!(decode_output(&[0x02, 0x00, 0x00, 0x00, 0x00, 0x00, 0x00]), 0x10_0000);
    assert_eq!(decode_output(&[0x08, 0x20, 0x80, 0x02, 0x08, 0x20, 0x00]), 0x24_8124);
}

#[test]
fn decode_negative_sample() {
    // 0xFFFFFE is -2, 0x800001 is one above the smallest
    assert_eq!(decode_output(&[0xAA, 0xAA, 0xAA, 0xAA, 0xAA, 0xA8, 0x00]), -2);
    assert_eq!(decode_output(&[0x80, 0x00, 0x00, 0x00, 0x00, 0x02, 0x00]), -8_388_607);
}

#[test]
fn decode_is_a_function_of_its_input() {
    let buffer = [0x12, 0x34, 0x56, 0x78, 0x9A, 0xBC, 0xDE];
    let first = decode_output(&buffer);
    let second = decode_output(&buffer);
    assert_eq!(first, second);
    // payloads: 0x12 -> 1, 0x34 -> 4, 0x56 -> 1, 0x78 -> 6, 0x9A -> 11, 0xBC -> 14
    assert_eq!(first, 0x14_16BE);
}

#[test]
fn decode_ignores_the_seventh_byte() {
    let mut buffer = [0x27, 0x80, 0x2A, 0x02, 0x55, 0xAA, 0x00];
    let expected = decode_output(&buffer);
    for last in 0..=255u8 {
        buffer[6] = last;
        assert_eq!(decode_output(&buffer), expected);
    }
}

#[test]
fn decode_ignores_the_bits_between() {
    for byte in 0..=255u8 {
        assert_eq!(extract(byte), extract(byte | 0x55));
        assert_eq!(extract(byte), extract(byte & 0xAA));
    }
}

#[test]
fn extract_picks_the_odd_bits() {
    assert_eq!(extract(0x00), 0);
    assert_eq!(extract(0x02), 1);
    assert_eq!(extract(0x08), 2);
    assert_eq!(extract(0x20), 4);
    assert_eq!(extract(0x80), 8);
    assert_eq!(extract(0xAA), 15);
    assert_eq!(extract(0x55), 0);
    assert_eq!(extract(0x27), 5);
    assert_eq!(extract(0xD8), 10);
}

#[test]
fn selector_read_back_gives_the_pulses() {
    assert_eq!(extract(Mode::ChAGain128.selector(false)), 0b1000);
    assert_eq!(extract(Mode::ChBGain32.selector(false)), 0b1100);
    assert_eq!(extract(Mode::ChAGain64.selector(false)), 0b1110);
    // an inverting line driver shows the chip the complement of what was sent
    assert_eq!(extract(encode(Mode::ChAGain128.selector(true), true)), 0b1000);
    assert_eq!(extract(encode(Mode::ChBGain32.selector(true), true)), 0b1100);
    assert_eq!(extract(encode(Mode::ChAGain64.selector(true), true)), 0b1110);
}

#[test]
fn frame_of_selectors_decodes_to_their_pulses() {
    // 0x888888 read as 24 bits in two's complement
    assert_eq!(decode_output(&[0x80; 7]), 0x88_8888 - 0x100_0000);
    assert_eq!(decode_output(&[0xA0; 7]), 0xCC_CCCC - 0x100_0000);
    assert_eq!(decode_output(&[0xA8; 7]), 0xEE_EEEE - 0x100_0000);
}
