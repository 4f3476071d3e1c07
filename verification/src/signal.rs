//! Bit patterns that the driver puts on the bus.
//!
//! The chip has a clock input and no data input. The bus's data-out line is
//! wired to that clock input, so a transferred `1` bit is a high clock level and
//! a `0` bit a low one. One clock pulse is the bit pair `10`; a missing pulse is
//! `00`. Where the wiring inverts the line, every byte is sent complemented.

use vstd::prelude::*;

verus! {

/// Selector of channel A with gain 128: one pulse after the sample.
pub const GAIN128: u8 = 0b1000_0000;

/// Selector of channel B with gain 32: two pulses after the sample.
pub const GAIN32: u8 = 0b1010_0000;

/// Selector of channel A with gain 64: three pulses after the sample.
pub const GAIN64: u8 = 0b1010_1000;

/// Four clock pulses, which shift four sample bits out of the chip.
pub const CLOCK: u8 = 0b1010_1010;

/// The clock line held low for one byte, as sent while asking for readiness.
pub const SIGNAL_LOW: u8 = 0x00;

/// The clock line held high for one byte, as sent during a reset.
pub const SIGNAL_HIGH: u8 = 0xFF;

/// Microseconds that the clock line has to stay high for the chip to power
/// down, and to reset when the line comes down again.
pub const RESET_HOLD_US: u32 = 60;

/// Bytes of high level that a reset sends. At every bus clock that the chip
/// can follow they keep the clock line up for longer than `RESET_HOLD_US`.
pub const RESET_LEN: usize = 301;

/// Bound on the probes that may find the chip busy: the driver gives up on a
/// busy answer once more than this many probes of the operation had the same
/// answer before it.
pub const READY_RETRIES: u32 = 1000;

/// The byte that puts `pattern` on the clock line: `pattern` itself, or its
/// complement where the line is inverted.
pub open spec fn wire_byte(pattern: u8, inverted: bool) -> u8 {
    if inverted {
        (255 - pattern) as u8
    } else {
        pattern
    }
}

/// The byte with the four low bits of `pulses` spread over the odd bit
/// positions, most significant first, and the even positions clear: a set bit
/// becomes the pulse `10`, a clear bit the gap `00`.
pub open spec fn doubled(pulses: u8) -> u8 {
    ((pulses / 8 % 2) * 128 + (pulses / 4 % 2) * 32 + (pulses / 2 % 2) * 8 + (pulses % 2) * 2) as u8
}

/// The number of bytes that a bus clocked at `bus_clock_hz` transfers in
/// `hold_us` microseconds, rounded down, and twice that number where each
/// pulse takes two transferred bits.
pub open spec fn hold_bytes(hold_us: nat, bus_clock_hz: nat, doubling: bool) -> nat {
    if doubling {
        2 * (hold_us * bus_clock_hz / 8_000_000)
    } else {
        hold_us * bus_clock_hz / 8_000_000
    }
}

/// Computes [`hold_bytes`]: the length that a hold of `hold_us` microseconds
/// takes on a bus clocked at `bus_clock_hz`. A reset needs more bytes than
/// that.
pub fn hold_length(hold_us: u32, bus_clock_hz: u32, doubling: bool) -> (bytes: u64)
    ensures
        bytes == hold_bytes(hold_us as nat, bus_clock_hz as nat, doubling),
{
    assert(hold_us * bus_clock_hz <= 0xFFFF_FFFF * 0xFFFF_FFFF) by (nonlinear_arith)
        requires
            hold_us <= 0xFFFF_FFFF,
            bus_clock_hz <= 0xFFFF_FFFF,
    ;
    let plain: u64 = (hold_us as u64) * (bus_clock_hz as u64) / 8_000_000;
    if doubling {
        2 * plain
    } else {
        plain
    }
}

/// Computes [`wire_byte`].
pub fn encode(pattern: u8, inverted: bool) -> (byte: u8)
    ensures
        byte == wire_byte(pattern, inverted),
{
    if inverted {
        assert(!pattern == 255 - pattern) by (bit_vector);
        !pattern
    } else {
        pattern
    }
}

/// Input channel and gain of the chip's next conversion.
///
/// Channel A takes the load cell, with a gain of 128 or 64; channel B has a
/// fixed gain of 32. The chip learns the mode from the number of clock pulses
/// that follow the 24 sample bits.
#[derive(Clone, Copy, Debug, PartialEq, Eq, Structural)]
pub enum Mode {
    /// Channel A with a gain factor of 128, the chip's state after a reset.
    ChAGain128,
    /// Channel B with a gain factor of 32.
    ChBGain32,
    /// Channel A with a gain factor of 64.
    ChAGain64,
}

impl Mode {
    /// The pulses that follow the sample bits, as four bits of which the
    /// leading ones are set: one pulse, two or three.
    pub open spec fn pulses(self) -> u8 {
        match self {
            Mode::ChAGain128 => 0b1000,
            Mode::ChBGain32 => 0b1100,
            Mode::ChAGain64 => 0b1110,
        }
    }

    /// The selector pattern on a line that is not inverted.
    pub open spec fn pattern(self) -> u8 {
        match self {
            Mode::ChAGain128 => GAIN128,
            Mode::ChBGain32 => GAIN32,
            Mode::ChAGain64 => GAIN64,
        }
    }

    /// The selector byte as transferred.
    pub open spec fn selector_byte(self, inverted: bool) -> u8 {
        wire_byte(self.pattern(), inverted)
    }

    /// The last byte of a read transaction in this mode.
    pub fn selector(self, inverted: bool) -> (byte: u8)
        ensures
            byte == self.selector_byte(inverted),
    {
        let pattern: u8 = match self {
            Mode::ChAGain128 => GAIN128,
            Mode::ChBGain32 => GAIN32,
            Mode::ChAGain64 => GAIN64,
        };
        encode(pattern, inverted)
    }
}

/// The byte of a readiness probe as transferred: the low level.
pub open spec fn probe_byte(inverted: bool) -> u8 {
    wire_byte(SIGNAL_LOW, inverted)
}

/// The buffer of a readiness probe as transferred.
pub open spec fn probe_buffer(inverted: bool) -> [u8; 1] {
    [probe_byte(inverted)]
}

/// The buffer of a read transaction as transferred: six times four clock
/// pulses, then the selector of `mode`.
pub open spec fn frame_buffer(mode: Mode, inverted: bool) -> [u8; 7] {
    [
        wire_byte(CLOCK, inverted),
        wire_byte(CLOCK, inverted),
        wire_byte(CLOCK, inverted),
        wire_byte(CLOCK, inverted),
        wire_byte(CLOCK, inverted),
        wire_byte(CLOCK, inverted),
        mode.selector_byte(inverted),
    ]
}

/// The bytes of a reset as transferred: the high level, `RESET_LEN` times.
pub open spec fn reset_bytes(inverted: bool) -> Seq<u8> {
    Seq::new(RESET_LEN as nat, |i: int| wire_byte(SIGNAL_HIGH, inverted))
}

/// Makes the buffer of a readiness probe.
pub fn probe_signal(inverted: bool) -> (buffer: [u8; 1])
    ensures
        buffer == probe_buffer(inverted),
{
    let buffer: [u8; 1] = [encode(SIGNAL_LOW, inverted)];
    assert(buffer =~= probe_buffer(inverted));
    buffer
}

/// Makes the buffer of a read transaction in `mode`.
pub fn clock_frame(mode: Mode, inverted: bool) -> (buffer: [u8; 7])
    ensures
        buffer == frame_buffer(mode, inverted),
{
    let clock: u8 = encode(CLOCK, inverted);
    let buffer: [u8; 7] = [clock, clock, clock, clock, clock, clock, mode.selector(inverted)];
    assert(buffer =~= frame_buffer(mode, inverted));
    buffer
}

/// Makes the buffer of a reset.
pub fn reset_signal(inverted: bool) -> (buffer: [u8; RESET_LEN])
    ensures
        buffer@ == reset_bytes(inverted),
{
    let buffer: [u8; RESET_LEN] = [encode(SIGNAL_HIGH, inverted); RESET_LEN];
    assert(buffer@ =~= reset_bytes(inverted));
    buffer
}

/// The reset that the driver sends is long enough: on a bus clocked at up to
/// 20 MHz, four times what the chip can follow, `RESET_LEN` bytes are more
/// than a hold of `RESET_HOLD_US` takes, counted with doubling, and they keep
/// the line high for longer than `RESET_HOLD_US`.
pub proof fn lemma_reset_is_long_enough(bus_clock_hz: nat)
    requires
        bus_clock_hz <= 20_000_000,
    ensures
        RESET_LEN > hold_bytes(RESET_HOLD_US as nat, bus_clock_hz, true),
        RESET_LEN * 8 * 1_000_000 > RESET_HOLD_US * bus_clock_hz,
{
}

/// Each selector is its mode's pulses in the doubled encoding, and the clock
/// byte is four pulses.
pub proof fn lemma_patterns_are_doubled(mode: Mode)
    ensures
        mode.pattern() == doubled(mode.pulses()),
        CLOCK == doubled(0b1111),
        SIGNAL_LOW == doubled(0),
{
}

/// On an inverted line a pattern goes out as its bitwise complement, and
/// inverting twice gives the pattern back: an inverting line driver shows the
/// chip the pattern that was meant.
pub proof fn lemma_inverted_is_complement(pattern: u8, inverted: bool)
    ensures
        wire_byte(pattern, true) == !pattern,
        wire_byte(pattern, false) == pattern,
        wire_byte(wire_byte(pattern, inverted), inverted) == pattern,
{
    assert(!pattern == 255 - pattern) by (bit_vector);
}

/// Different modes have different selectors, whatever the polarity.
pub proof fn lemma_selector_injective(a: Mode, b: Mode, inverted: bool)
    requires
        a.selector_byte(inverted) == b.selector_byte(inverted),
    ensures
        a == b,
{
}

} // verus!
