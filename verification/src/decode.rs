//! Reading a sample out of the bytes that came back from a read transaction.
//!
//! The chip shifts one sample bit out per clock pulse, most significant bit
//! first, and a pulse takes two transferred bits. So every received byte holds
//! four sample bits, at its bit positions 7, 5, 3 and 1; what was sampled at
//! the positions in between is of no account.

use vstd::prelude::*;
use crate::signal::{doubled, wire_byte, Mode};

verus! {

/// The four sample bits of a received byte as a number below 16: bit 7 of the
/// byte weighs 8, bit 5 weighs 4, bit 3 weighs 2 and bit 1 weighs 1.
pub open spec fn payload(byte: u8) -> nat {
    ((byte / 128 % 2) * 8 + (byte / 32 % 2) * 4 + (byte / 8 % 2) * 2 + (byte / 2 % 2)) as nat
}

/// The 24 sample bits of a received frame as a number below 2^24: the payloads
/// of its first six bytes, the first byte's in front.
pub open spec fn raw_sample(frame: Seq<u8>) -> nat
    recommends
        frame.len() >= 6,
{
    payload(frame[0]) * 0x10_0000 + payload(frame[1]) * 0x1_0000 + payload(frame[2]) * 0x1000
        + payload(frame[3]) * 0x100 + payload(frame[4]) * 0x10 + payload(frame[5])
}

/// The sample in a received frame: its 24 sample bits read as a number in
/// two's complement.
pub open spec fn sample_value(frame: Seq<u8>) -> int
    recommends
        frame.len() >= 6,
{
    if raw_sample(frame) >= 0x80_0000 {
        raw_sample(frame) - 0x100_0000
    } else {
        raw_sample(frame) as int
    }
}

/// A 32-bit word read as a number in two's complement.
pub open spec fn signed_word(word: nat) -> int
    recommends
        word < 0x1_0000_0000,
{
    if word >= 0x8000_0000 {
        word - 0x1_0000_0000
    } else {
        word as int
    }
}

/// Picks the four sample bits out of a received byte.
pub fn extract(byte: u8) -> (nibble: u8)
    ensures
        nibble == payload(byte),
        nibble < 16,
{
    let nibble: u8 = ((byte >> 4) & 0x8) | ((byte >> 3) & 0x4) | ((byte >> 2) & 0x2) | ((byte >> 1)
        & 0x1);
    assert(nibble == (byte / 128 % 2) * 8 + (byte / 32 % 2) * 4 + (byte / 8 % 2) * 2 + (byte / 2
        % 2)) by (bit_vector)
        requires
            nibble == ((byte >> 4) & 0x8) | ((byte >> 3) & 0x4) | ((byte >> 2) & 0x2) | ((byte >> 1)
                & 0x1),
    ;
    nibble
}

/// Decodes the answer to a read transaction into the sample it carries.
///
/// The result is a function of the first six bytes alone; the seventh came back
/// while the selector went out and carries no sample bit.
pub fn decode_output(buffer: &[u8; 7]) -> (value: i32)
    ensures
        value == sample_value(buffer@),
        -0x80_0000 <= value <= 0x7F_FFFF,
{
    let a: u32 = extract(buffer[0]) as u32;
    let b: u32 = extract(buffer[1]) as u32;
    let c: u32 = extract(buffer[2]) as u32;
    let d: u32 = extract(buffer[3]) as u32;
    let e: u32 = extract(buffer[4]) as u32;
    let f: u32 = extract(buffer[5]) as u32;
    let raw: u32 = a * 0x10_0000 + b * 0x1_0000 + c * 0x1000 + d * 0x100 + e * 0x10 + f;
    if raw >= 0x80_0000 {
        (raw as i32) - 0x100_0000
    } else {
        raw as i32
    }
}

/// A sample has 24 bits.
pub proof fn lemma_sample_range(frame: Seq<u8>)
    ensures
        raw_sample(frame) < 0x100_0000,
        -0x80_0000 <= sample_value(frame) <= 0x7F_FFFF,
{
}

/// The sample is what comes of putting the 24 sample bits in the upper three
/// bytes of a 32-bit word, reading the word as signed and dividing it by 256.
pub proof fn lemma_sample_is_shifted_word(frame: Seq<u8>)
    ensures
        sample_value(frame) * 256 == signed_word(raw_sample(frame) * 256),
        sample_value(frame) == signed_word(raw_sample(frame) * 256) / 256,
{
    lemma_sample_range(frame);
}

/// The bytes after the sixth have no part in the sample: two frames that
/// agree in their first six bytes hold the same sample.
pub proof fn lemma_sample_ignores_selector(frame: Seq<u8>, other: Seq<u8>)
    requires
        frame.len() >= 6,
        other.len() >= 6,
        frame.subrange(0, 6) == other.subrange(0, 6),
    ensures
        sample_value(frame) == sample_value(other),
{
    assert forall|i: int| 0 <= i < 6 implies frame[i] == other[i] by {
        assert(frame[i] == frame.subrange(0, 6)[i]);
        assert(other[i] == other.subrange(0, 6)[i]);
    }
}

/// Four pulses that went out doubled come back as they were: extraction
/// undoes the doubling.
pub proof fn lemma_payload_of_doubled(pulses: u8)
    requires
        pulses < 16,
    ensures
        payload(doubled(pulses)) == pulses,
{
}

/// The level that a selector byte puts on the clock line, read back the way a
/// sample is, gives the pulses of its mode, whatever the polarity.
pub proof fn lemma_selector_round_trip(mode: Mode, inverted: bool)
    ensures
        payload(wire_byte(mode.selector_byte(inverted), inverted)) == mode.pulses(),
{
}

} // verus!
