use hx711_spi::signal::{clock_frame, encode, hold_length, probe_signal, reset_signal};
use hx711_spi::{
    Mode, CLOCK, GAIN128, GAIN32, GAIN64, READY_RETRIES, RESET_HOLD_US, RESET_LEN, SIGNAL_HIGH,
    SIGNAL_LOW,
};

#[test]
fn patterns_have_their_documented_values() {
    assert_eq!(GAIN128, 0x80);
    assert_eq!(GAIN32, 0xA0);
    assert_eq!(GAIN64, 0xA8);
    assert_eq!(CLOCK, 0xAA);
    assert_eq!(SIGNAL_LOW, 0x00);
    assert_eq!(SIGNAL_HIGH, 0xFF);
    assert_eq!(RESET_LEN, 301);
    assert_eq!(READY_RETRIES, 1000);
}

#[test]
fn encode_keeps_a_pattern_on_a_plain_line() {
    assert_eq!(encode(0b1010_1000, false), 0b1010_1000);
    assert_eq!(encode(0x00, false), 0x00);
    assert_eq!(encode(0xFF, false), 0xFF);
}

#[test]
fn encode_complements_on_an_inverted_line() {
    assert_eq!(encode(0b1010_1000, true), 0b0101_0111);
    assert_eq!(encode(0x00, true), 0xFF);
    assert_eq!(encode(0xFF, true), 0x00);
    for pattern in 0..=255u8 {
        assert_eq!(encode(pattern, true), 255 - pattern);
        assert_eq!(encode(encode(pattern, true), true), pattern);
    }
}

#[test]
fn selectors_on_a_plain_line() {
    assert_eq!(Mode::ChAGain128.selector(false), 0b1000_0000);
    assert_eq!(Mode::ChBGain32.selector(false), 0b1010_0000);
    assert_eq!(Mode::ChAGain64.selector(false), 0b1010_1000);
}

#[test]
fn selectors_on_an_inverted_line() {
    assert_eq!(Mode::ChAGain128.selector(true), 0b0111_1111);
    assert_eq!(Mode::ChBGain32.selector(true), 0b0101_1111);
    assert_eq!(Mode::ChAGain64.selector(true), 0b0101_0111);
}

#[test]
fn selectors_differ() {
    for inverted in [false, true] {
        let a = Mode::ChAGain128.selector(inverted);
        let b = Mode::ChBGain32.selector(inverted);
        let c = Mode::ChAGain64.selector(inverted);
        assert_ne!(a, b);
        assert_ne!(a, c);
        assert_ne!(b, c);
    }
}

#[test]
fn probe_is_one_byte_of_low_level() {
    assert_eq!(probe_signal(false), [0x00]);
    assert_eq!(probe_signal(true), [0xFF]);
}

#[test]
fn frame_is_six_clock_bytes_and_the_selector() {
    assert_eq!(
        clock_frame(Mode::ChAGain128, false),
        [0xAA, 0xAA, 0xAA, 0xAA, 0xAA, 0xAA, 0x80]
    );
    assert_eq!(
        clock_frame(Mode::ChBGain32, false),
        [0xAA, 0xAA, 0xAA, 0xAA, 0xAA, 0xAA, 0xA0]
    );
    assert_eq!(
        clock_frame(Mode::ChAGain64, false),
        [0xAA, 0xAA, 0xAA, 0xAA, 0xAA, 0xAA, 0xA8]
    );
    assert_eq!(
        clock_frame(Mode::ChAGain64, true),
        [0x55, 0x55, 0x55, 0x55, 0x55, 0x55, 0x57]
    );
}

#[test]
fn reset_is_a_long_run_of_high_level() {
    let plain = reset_signal(false);
    assert_eq!(plain.len(), 301);
    assert!(plain.iter().all(|byte| *byte == 0xFF));
    let inverted = reset_signal(true);
    assert_eq!(inverted.len(), 301);
    assert!(inverted.iter().all(|byte| *byte == 0x00));
}

#[test]
fn hold_length_follows_the_bus_clock() {
    assert_eq!(RESET_HOLD_US, 60);
    assert_eq!(hold_length(60, 1_000_000, false), 7);
    assert_eq!(hold_length(60, 1_000_000, true), 14);
    assert_eq!(hold_length(60, 5_000_000, false), 37);
    assert_eq!(hold_length(60, 5_000_000, true), 74);
    assert_eq!(hold_length(60, 40_000_000, false), 300);
    assert_eq!(hold_length(60, 20_000_000, true), 300);
    assert_eq!(hold_length(0, 5_000_000, true), 0);
    assert_eq!(hold_length(60, 0, false), 0);
    assert_eq!(hold_length(u32::MAX, u32::MAX, false), 2_305_843_008_139);
    assert_eq!(hold_length(u32::MAX, u32::MAX, true), 4_611_686_016_278);
}

#[test]
fn reset_is_longer_than_the_hold_needs() {
    for bus_clock_hz in [20_000, 1_000_000, 5_000_000, 20_000_000] {
        assert!((RESET_LEN as u64) > hold_length(RESET_HOLD_US, bus_clock_hz, true));
        assert!((RESET_LEN as u64) * 8 * 1_000_000 > (RESET_HOLD_US as u64) * (bus_clock_hz as u64));
    }
}
