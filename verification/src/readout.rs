//! Averaged readout of whole words.
//!
//! A read in this scheme is four bytes: three bytes of pulses and a selector
//! go out while four bytes come back. Each answer is taken as one big-endian
//! word with the sample in its upper three bytes. A run of such words is
//! averaged, and the mean without its lowest byte is the reading.

use vstd::prelude::*;
use crate::decode::signed_word;

verus! {

/// The byte that goes out three times before the selector.
pub const PULSES: u8 = 0xAA;

/// Gain and channel as this readout selects them: by the length of the high
/// level at the front of the last byte that goes out.
#[derive(Clone, Copy, Debug, PartialEq, Eq, Structural)]
pub enum HX711Mode {
    /// Gain factor 128 on channel A: one bit of high level.
    ChAGain128,
    /// Gain factor 32 on channel B: two bits of high level.
    ChBGain32,
    /// Gain factor 64: three bits of high level.
    ChBGain64,
}

impl HX711Mode {
    /// The selector byte of this mode.
    pub open spec fn selector_byte(self) -> u8 {
        match self {
            HX711Mode::ChAGain128 => 0x80,
            HX711Mode::ChBGain32 => 0xC0,
            HX711Mode::ChBGain64 => 0xE0,
        }
    }

    /// The last byte that goes out in a read in this mode.
    pub fn selector(self) -> (byte: u8)
        ensures
            byte == self.selector_byte(),
    {
        match self {
            HX711Mode::ChAGain128 => 0x80,
            HX711Mode::ChBGain32 => 0xC0,
            HX711Mode::ChBGain64 => 0xE0,
        }
    }
}

/// The bytes that go out in one read.
pub open spec fn request_buffer(mode: HX711Mode) -> [u8; 4] {
    [PULSES, PULSES, PULSES, mode.selector_byte()]
}

/// The four bytes of an answer as one big-endian word in two's complement.
pub open spec fn word_value(answer: Seq<u8>) -> int
    recommends
        answer.len() == 4,
{
    signed_word(
        (answer[0] * 0x100_0000 + answer[1] * 0x1_0000 + answer[2] * 0x100 + answer[3]) as nat,
    )
}

/// The sum of `words`.
pub open spec fn total(words: Seq<i32>) -> int
    decreases words.len(),
{
    if words.len() == 0 {
        0
    } else {
        total(words.drop_last()) + words.last()
    }
}

/// `a` divided by a positive `b`, rounded toward zero.
pub open spec fn quotient(a: int, b: int) -> int
    recommends
        b > 0,
{
    if a >= 0 {
        a / b
    } else {
        -((-a) / b)
    }
}

/// The reading that a run of words gives: their mean, rounded toward zero,
/// without its lowest byte, rounded toward zero again.
pub open spec fn mean_reading(words: Seq<i32>) -> int
    recommends
        words.len() > 0,
{
    quotient(quotient(total(words), words.len() as int), 0x100)
}

/// Makes the buffer of one read in `mode`.
pub fn request(mode: HX711Mode) -> (buffer: [u8; 4])
    ensures
        buffer == request_buffer(mode),
{
    let buffer: [u8; 4] = [PULSES, PULSES, PULSES, mode.selector()];
    assert(buffer =~= request_buffer(mode));
    buffer
}

/// Reads an answer as one big-endian word.
pub fn word(answer: &[u8; 4]) -> (value: i32)
    ensures
        value == word_value(answer@),
{
    let unsigned: u32 = (answer[0] as u32) * 0x100_0000 + (answer[1] as u32) * 0x1_0000 + (
    answer[2] as u32) * 0x100 + (answer[3] as u32);
    if unsigned >= 0x8000_0000 {
        ((unsigned - 0x8000_0000) as i32) + i32::MIN
    } else {
        unsigned as i32
    }
}

/// Averages a run of words into one reading.
///
/// The run has at least one word and no more than a `u8` can count.
pub fn readout(words: &[i32]) -> (value: i32)
    requires
        0 < words@.len() <= u8::MAX,
    ensures
        value == mean_reading(words@),
{
    let count: usize = words.len();
    let mut sum: i64 = 0;
    let mut taken: usize = 0;
    while taken < count
        invariant
            count == words@.len(),
            taken <= count <= u8::MAX,
            sum == total(words@.take(taken as int)),
            -0x8000_0000 * taken <= sum <= 0x7FFF_FFFF * taken,
        decreases count - taken,
    {
        proof {
            assert(words@.take(taken + 1).drop_last() =~= words@.take(taken as int));
        }
        sum = sum + words[taken] as i64;
        taken = taken + 1;
    }
    proof {
        assert(words@.take(count as int) =~= words@);
        lemma_mean_fits(sum as int, count as int);
    }
    let mean: i64 = sum / (count as i64);
    (mean as i32) / 0x100
}

/// The mean of numbers that fit 32 bits fits 32 bits.
proof fn lemma_mean_fits(sum: int, count: int)
    requires
        count > 0,
        -0x8000_0000 * count <= sum <= 0x7FFF_FFFF * count,
    ensures
        -0x8000_0000 <= quotient(sum, count) <= 0x7FFF_FFFF,
{
    if sum >= 0 {
        assert(sum / count <= 0x7FFF_FFFF) by (nonlinear_arith)
            requires
                count > 0,
                0 <= sum <= 0x7FFF_FFFF * count,
        ;
        assert(0 <= sum / count) by (nonlinear_arith)
            requires
                count > 0,
                0 <= sum,
        ;
    } else {
        assert((-sum) / count <= 0x8000_0000) by (nonlinear_arith)
            requires
                count > 0,
                0 <= -sum <= 0x8000_0000 * count,
        ;
        assert(0 <= (-sum) / count) by (nonlinear_arith)
            requires
                count > 0,
                0 <= -sum,
        ;
    }
}

} // verus!
