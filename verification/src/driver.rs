//! The driver: what goes on the bus next, and what an answer means.
//!
//! The driver makes no transfer itself. An operation starts with a call that
//! hands out the first [`Exchange`]; whoever runs the bus transfers its buffer
//! in place and gives it back to [`Hx711::resume`] with the bus's verdict, and
//! gets the next [`Step`]: one more exchange, or the end of the operation.

use vstd::prelude::*;
use crate::decode::{decode_output, sample_value};
use crate::error::Error;
use crate::signal::{
    clock_frame, frame_buffer, probe_buffer, probe_signal, reset_bytes, reset_signal, Mode,
    READY_RETRIES, RESET_LEN,
};

verus! {

/// What an operation that asks the chip for a sample is after.
#[derive(Clone, Copy, Debug, PartialEq, Eq, Structural)]
pub enum Goal {
    /// The sample itself.
    Sample,
    /// Getting the selector of a newly set mode into the chip; the sample that
    /// comes with it is dropped.
    ModeChange,
}

/// One transfer on the bus: the buffer to exchange in place, and what the
/// driver needs to go on once it is back.
#[allow(inconsistent_fields)]
#[derive(Clone, Copy, Debug, PartialEq, Eq)]
pub enum Exchange {
    /// A readiness probe. The chip holds its data line high while it converts;
    /// the last bit that comes back tells. `attempt` is the number of probes of
    /// this operation that found the chip busy before this one.
    Probe { buffer: [u8; 1], attempt: u32, goal: Goal },
    /// A read transaction: 24 clock pulses and the selector.
    Frame { buffer: [u8; 7], goal: Goal },
    /// The clock line held high to reset the chip.
    Hold { buffer: [u8; RESET_LEN] },
}

impl Exchange {
    /// The bytes in the buffer: those to send before the transfer, those that
    /// came back after it.
    pub open spec fn bytes(self) -> Seq<u8> {
        match self {
            Exchange::Probe { buffer, .. } => buffer@,
            Exchange::Frame { buffer, .. } => buffer@,
            Exchange::Hold { buffer } => buffer@,
        }
    }

    /// Tells whether `other` is this exchange but for what is in the buffer:
    /// the same kind of transfer, at the same attempt, for the same goal.
    pub open spec fn same_transfer(self, other: Exchange) -> bool {
        match (self, other) {
            (
                Exchange::Probe { attempt, goal, .. },
                Exchange::Probe { attempt: other_attempt, goal: other_goal, .. },
            ) => attempt == other_attempt && goal == other_goal,
            (Exchange::Frame { goal, .. }, Exchange::Frame { goal: other_goal, .. }) => goal
                == other_goal,
            (Exchange::Hold { .. }, Exchange::Hold { .. }) => true,
            _ => false,
        }
    }

    /// The buffer, to be handed to the bus for a transfer in place. What is
    /// written to it is what the exchange holds afterwards, and nothing else of
    /// the exchange changes.
    pub fn buffer_mut(&mut self) -> (words: &mut [u8])
        ensures
            words@ == old(self).bytes(),
            final(self).bytes() == final(words)@,
            final(self).same_transfer(*old(self)),
    {
        match self {
            Exchange::Probe { buffer, .. } => buffer,
            Exchange::Frame { buffer, .. } => buffer,
            Exchange::Hold { buffer } => buffer,
        }
    }
}

/// What the driver wants done next.
#[derive(Debug, PartialEq, Eq)]
pub enum Step<E> {
    /// Transfer this exchange's buffer in place and resume with it.
    Transfer(Exchange),
    /// The operation is over and gave this sample.
    Sample(i32),
    /// The operation is over: the chip has taken the selector of this mode and
    /// converts in it from the next sample on.
    ModeSet(Mode),
    /// The operation is over: the chip was reset.
    ResetDone,
    /// The operation is over and failed.
    Failed(Error<E>),
}

/// A chip that has a sample ready pulls its data line low: the last bit of the
/// probe's answer is clear.
pub open spec fn is_ready(answer: u8) -> bool {
    answer % 2 == 0
}

/// The probe that opens an operation with the given goal.
pub open spec fn first_probe(inverted: bool, goal: Goal) -> Exchange {
    Exchange::Probe { buffer: probe_buffer(inverted), attempt: 0, goal }
}

/// The driver's answer to a finished exchange, in a driver whose mode is
/// `mode`.
///
/// A failed transfer ends the operation with the bus's error, whatever was
/// transferred. A probe that finds the chip ready is followed by the read
/// transaction in the current mode; one that finds it busy is repeated, until
/// more than `READY_RETRIES` probes before it have found the same. A read
/// transaction ends the operation, with the sample or with the mode that was
/// set, and a reset hold ends it too.
pub open spec fn next_step<E>(
    mode: Mode,
    inverted: bool,
    done: Exchange,
    outcome: Result<(), E>,
) -> Step<E> {
    match outcome {
        Err(error) => Step::Failed(Error::Spi(error)),
        Ok(_) => match done {
            Exchange::Probe { buffer, attempt, goal } => {
                if is_ready(buffer[0]) {
                    Step::Transfer(Exchange::Frame { buffer: frame_buffer(mode, inverted), goal })
                } else if attempt > READY_RETRIES {
                    Step::Failed(Error::NotReadyInTime)
                } else {
                    Step::Transfer(
                        Exchange::Probe {
                            buffer: probe_buffer(inverted),
                            attempt: (attempt + 1) as u32,
                            goal,
                        },
                    )
                }
            },
            Exchange::Frame { buffer, goal } => match goal {
                Goal::Sample => Step::Sample(sample_value(buffer@) as i32),
                Goal::ModeChange => Step::ModeSet(mode),
            },
            Exchange::Hold { .. } => Step::ResetDone,
        },
    }
}

/// The driver's mode after a finished exchange: the chip's default after a
/// reset hold that went through, and the mode before in every other case.
pub open spec fn mode_after<E>(mode: Mode, done: Exchange, outcome: Result<(), E>) -> Mode {
    if done is Hold && outcome is Ok {
        Mode::ChAGain128
    } else {
        mode
    }
}

/// Tells whether the answer to a probe shows a sample ready.
pub fn ready(answer: u8) -> (yes: bool)
    ensures
        yes == is_ready(answer),
{
    assert((answer & 0b01 != 0b01) == (answer % 2 == 0)) by (bit_vector);
    answer & 0b01 != 0b01
}

/// An HX711 on a bus of type `SPI`, with a delay source of type `DELAY`.
///
/// The driver owns both handles for as long as it lives, so that nothing else
/// can put a transfer between a probe and its read transaction. `INVERT_SDO`
/// tells whether the wiring inverts the bus's data-out line; it is part of the
/// type because it is part of the board.
pub struct Hx711<SPI, DELAY, const INVERT_SDO: bool> {
    spi: SPI,
    delay: DELAY,
    mode: Mode,
}

impl<SPI, DELAY, const INVERT_SDO: bool> Hx711<SPI, DELAY, INVERT_SDO> {
    /// The mode whose selector goes out with the next read transaction.
    pub closed spec fn current(&self) -> Mode {
        self.mode
    }

    /// The bus handle that the driver holds.
    pub closed spec fn bus_handle(&self) -> SPI {
        self.spi
    }

    /// The delay handle that the driver holds.
    pub closed spec fn delay_handle(&self) -> DELAY {
        self.delay
    }

    /// Tells whether two drivers hold the same handles.
    pub open spec fn same_handles(&self, other: &Self) -> bool {
        &&& self.bus_handle() == other.bus_handle()
        &&& self.delay_handle() == other.delay_handle()
    }

    /// Makes a driver out of a bus and a delay source that are set up already.
    /// Nothing is transferred. The bus clock has to be between 20 kHz and
    /// 5 MHz for the chip to see pulses of a length it accepts.
    pub fn new(spi: SPI, delay: DELAY) -> (driver: Self)
        ensures
            driver.current() == Mode::ChAGain128,
            driver.bus_handle() == spi,
            driver.delay_handle() == delay,
    {
        Hx711 { spi, delay, mode: Mode::ChAGain128 }
    }

    /// Starts reading a sample: hands out the first readiness probe.
    pub fn read_val(&mut self) -> (first: Exchange)
        ensures
            first == first_probe(INVERT_SDO, Goal::Sample),
            *final(self) == *old(self),
    {
        Exchange::Probe { buffer: probe_signal(INVERT_SDO), attempt: 0, goal: Goal::Sample }
    }

    /// Starts a reset: hands out the hold that keeps the clock line high for
    /// longer than the chip tolerates. The mode changes when the hold has gone
    /// through, not before.
    pub fn reset(&mut self) -> (first: Exchange)
        ensures
            first matches Exchange::Hold { buffer } && buffer@ == reset_bytes(INVERT_SDO),
            *final(self) == *old(self),
    {
        Exchange::Hold { buffer: reset_signal(INVERT_SDO) }
    }

    /// Sets the mode and starts the read that carries its selector to the
    /// chip. The driver keeps the new mode whether or not that read succeeds.
    pub fn set_mode(&mut self, m: Mode) -> (first: Exchange)
        ensures
            first == first_probe(INVERT_SDO, Goal::ModeChange),
            final(self).current() == m,
            final(self).same_handles(old(self)),
    {
        self.mode = m;
        Exchange::Probe { buffer: probe_signal(INVERT_SDO), attempt: 0, goal: Goal::ModeChange }
    }

    /// Takes an exchange back from the bus and says what comes next.
    ///
    /// `done` holds the bytes that came back where the bytes that went out were,
    /// and `outcome` is what the bus said of the transfer.
    pub fn resume<E>(&mut self, done: Exchange, outcome: Result<(), E>) -> (step: Step<E>)
        ensures
            step == next_step(old(self).current(), INVERT_SDO, done, outcome),
            final(self).current() == mode_after(old(self).current(), done, outcome),
            final(self).same_handles(old(self)),
    {
        match outcome {
            Err(error) => Step::Failed(Error::Spi(error)),
            Ok(_) => match done {
                Exchange::Probe { buffer, attempt, goal } => {
                    if ready(buffer[0]) {
                        Step::Transfer(
                            Exchange::Frame { buffer: clock_frame(self.mode, INVERT_SDO), goal },
                        )
                    } else if attempt > READY_RETRIES {
                        Step::Failed(Error::NotReadyInTime)
                    } else {
                        Step::Transfer(
                            Exchange::Probe {
                                buffer: probe_signal(INVERT_SDO),
                                attempt: attempt + 1,
                                goal,
                            },
                        )
                    }
                },
                Exchange::Frame { buffer, goal } => match goal {
                    Goal::Sample => Step::Sample(decode_output(&buffer)),
                    Goal::ModeChange => Step::ModeSet(self.mode),
                },
                Exchange::Hold { .. } => {
                    self.mode = Mode::ChAGain128;
                    Step::ResetDone
                },
            },
        }
    }

    /// The bus, for the transfer that the driver has asked for. The driver
    /// keeps its mode and its delay source whatever is done with the bus.
    pub fn bus(&mut self) -> (bus: &mut SPI)
        ensures
            *bus == old(self).bus_handle(),
            final(self).bus_handle() == *final(bus),
            final(self).delay_handle() == old(self).delay_handle(),
            final(self).current() == old(self).current(),
    {
        &mut self.spi
    }

    /// Ends the driver and gives back the handles it was made with.
    pub fn release(self) -> (handles: (SPI, DELAY))
        ensures
            handles.0 == self.bus_handle(),
            handles.1 == self.delay_handle(),
    {
        (self.spi, self.delay)
    }

    /// The current mode.
    pub fn mode(&mut self) -> (m: Mode)
        ensures
            m == old(self).current(),
            *final(self) == *old(self),
    {
        self.mode
    }

    /// The current mode, under the name that older callers know.
    pub fn get_mode(&mut self) -> (m: Mode)
        ensures
            m == old(self).current(),
            *final(self) == *old(self),
    {
        self.mode
    }

    /// Powering the chip down takes a clock line that stays high, and a bus
    /// that transfers buffers cannot hold it there: this always fails.
    pub fn disable<E>(&mut self) -> (refused: Result<(), Error<E>>)
        ensures
            refused == Err::<(), Error<E>>(Error::Unsupported),
            *final(self) == *old(self),
    {
        Err(Error::Unsupported)
    }

    /// The counterpart of [`Hx711::disable`], and as little possible: this
    /// always fails.
    pub fn enable<E>(&mut self) -> (refused: Result<(), Error<E>>)
        ensures
            refused == Err::<(), Error<E>>(Error::Unsupported),
            *final(self) == *old(self),
    {
        Err(Error::Unsupported)
    }
}

/// The number of answers at the front of `answers` that show the chip busy.
pub open spec fn busy_run(answers: Seq<u8>) -> nat
    decreases answers.len(),
{
    if answers.len() == 0 || is_ready(answers[0]) {
        0
    } else {
        1 + busy_run(answers.drop_first())
    }
}

/// Where an operation stands that has come to a probe at `attempt`, once its
/// probes from there on have been answered by `answers`, one after the other,
/// and no transfer has failed: the step that the driver gave last. Answers
/// past the end of the probing count for nothing, as the driver asked for no
/// probe that they could answer.
pub open spec fn probing_from<E>(
    mode: Mode,
    inverted: bool,
    goal: Goal,
    attempt: u32,
    answers: Seq<u8>,
) -> Step<E>
    decreases answers.len(),
{
    if answers.len() == 0 {
        Step::Transfer(Exchange::Probe { buffer: probe_buffer(inverted), attempt, goal })
    } else {
        match next_step::<E>(
            mode,
            inverted,
            Exchange::Probe { buffer: [answers[0]], attempt, goal },
            Ok(()),
        ) {
            Step::Transfer(Exchange::Probe { attempt: next, .. }) => probing_from(
                mode,
                inverted,
                goal,
                next,
                answers.drop_first(),
            ),
            end => end,
        }
    }
}

/// Where an operation stands once its probes have been answered by `answers`,
/// counted from its first probe.
pub open spec fn after_probes<E>(mode: Mode, inverted: bool, goal: Goal, answers: Seq<u8>) -> Step<
    E,
> {
    probing_from(mode, inverted, goal, 0, answers)
}

/// Probing goes by the run of busy answers alone. If the run takes the count
/// of busy probes past the bound, the operation has failed. If not, and an
/// answer follows the run, that answer showed the chip ready and the driver has
/// gone on to the read transaction of its mode. Else the driver still probes,
/// and its count has grown by the length of the run.
pub proof fn lemma_probing<E>(
    mode: Mode,
    inverted: bool,
    goal: Goal,
    attempt: u32,
    answers: Seq<u8>,
)
    ensures
        probing_from::<E>(mode, inverted, goal, attempt, answers) == if busy_run(answers) > 0
            && attempt + busy_run(answers) > READY_RETRIES + 1 {
            Step::<E>::Failed(Error::NotReadyInTime)
        } else if busy_run(answers) < answers.len() {
            Step::Transfer(Exchange::Frame { buffer: frame_buffer(mode, inverted), goal })
        } else {
            Step::Transfer(
                Exchange::Probe {
                    buffer: probe_buffer(inverted),
                    attempt: (attempt + busy_run(answers)) as u32,
                    goal,
                },
            )
        },
        busy_run(answers) <= answers.len(),
    decreases answers.len(),
{
    if answers.len() > 0 && !is_ready(answers[0]) && attempt <= READY_RETRIES {
        lemma_probing::<E>(mode, inverted, goal, (attempt + 1) as u32, answers.drop_first());
    } else if answers.len() > 0 && !is_ready(answers[0]) {
        lemma_probing::<E>(mode, inverted, goal, attempt, answers.drop_first());
    }
}

/// A chip that never reports ready makes the operation fail, and no later
/// than with the answer to the last probe that the bound allows: the driver
/// does not wait for ever.
pub proof fn lemma_never_ready_gives_up<E>(
    mode: Mode,
    inverted: bool,
    goal: Goal,
    answers: Seq<u8>,
)
    requires
        forall|i: int| 0 <= i < answers.len() ==> !is_ready(#[trigger] answers[i]),
        answers.len() >= READY_RETRIES + 2,
    ensures
        after_probes::<E>(mode, inverted, goal, answers) == Step::<E>::Failed(
            Error::NotReadyInTime,
        ),
{
    lemma_probing::<E>(mode, inverted, goal, 0, answers);
    lemma_busy_run_of_busy(answers);
}

/// Whatever the chip answers, an operation asks for no more probes than the
/// bound allows: after that many answers it has moved on or failed.
pub proof fn lemma_probes_are_bounded<E>(
    mode: Mode,
    inverted: bool,
    goal: Goal,
    answers: Seq<u8>,
)
    requires
        answers.len() >= READY_RETRIES + 2,
    ensures
        !(after_probes::<E>(mode, inverted, goal, answers) matches Step::Transfer(
            Exchange::Probe { .. },
        )),
{
    lemma_probing::<E>(mode, inverted, goal, 0, answers);
}

/// A read of a chip that reports ready in time sends the read transaction of
/// the driver's mode, and nothing but what comes back for it decides the
/// sample: the operation ends with the sample that the answer holds.
pub proof fn lemma_read_gives_decoded_sample<E>(
    mode: Mode,
    inverted: bool,
    answers: Seq<u8>,
    frame: [u8; 7],
)
    requires
        busy_run(answers) < answers.len(),
        busy_run(answers) <= READY_RETRIES + 1,
    ensures
        after_probes::<E>(mode, inverted, Goal::Sample, answers) == Step::<E>::Transfer(
            Exchange::Frame { buffer: frame_buffer(mode, inverted), goal: Goal::Sample },
        ),
        next_step::<E>(
            mode,
            inverted,
            Exchange::Frame { buffer: frame, goal: Goal::Sample },
            Ok(()),
        ) == Step::<E>::Sample(sample_value(frame@) as i32),
        sample_value(frame@) as i32 == sample_value(frame@),
{
    lemma_probing::<E>(mode, inverted, Goal::Sample, 0, answers);
}

/// Where every answer shows the chip busy, the busy run is all of them.
proof fn lemma_busy_run_of_busy(answers: Seq<u8>)
    requires
        forall|i: int| 0 <= i < answers.len() ==> !is_ready(#[trigger] answers[i]),
    ensures
        busy_run(answers) == answers.len(),
    decreases answers.len(),
{
    if answers.len() > 0 {
        let rest = answers.drop_first();
        assert forall|i: int| 0 <= i < rest.len() implies !is_ready(#[trigger] rest[i]) by {
            assert(rest[i] == answers[i + 1]);
        }
        lemma_busy_run_of_busy(rest);
    }
}

/// An operation ends the way its goal says: a read with its sample, a mode
/// change with its mode, a reset as a reset, and each of them may fail. And
/// what the driver asks for next serves the goal that the exchange before it
/// served.
pub proof fn lemma_step_serves_goal<E>(
    mode: Mode,
    inverted: bool,
    done: Exchange,
    outcome: Result<(), E>,
)
    ensures
        match next_step(mode, inverted, done, outcome) {
            Step::Transfer(Exchange::Probe { goal, .. }) => done matches Exchange::Probe {
                goal: before,
                ..
            } && goal == before,
            Step::Transfer(Exchange::Frame { goal, .. }) => done matches Exchange::Probe {
                goal: before,
                ..
            } && goal == before,
            Step::Transfer(Exchange::Hold { .. }) => false,
            Step::Sample(_) => done matches Exchange::Frame { goal: Goal::Sample, .. },
            Step::ModeSet(_) => done matches Exchange::Frame { goal: Goal::ModeChange, .. },
            Step::ResetDone => done is Hold,
            Step::Failed(Error::Spi(error)) => outcome == Err::<(), E>(error),
            Step::Failed(Error::NotReadyInTime) => done is Probe && outcome is Ok,
            Step::Failed(Error::Unsupported) => false,
        },
{
}

/// The mode that was set stays through the whole read that carries it to the
/// chip: no exchange but a reset hold changes it, however the exchange went,
/// and the read that goes through reports that very mode.
pub proof fn lemma_set_mode_persists<E>(
    m: Mode,
    inverted: bool,
    done: Exchange,
    outcome: Result<(), E>,
)
    requires
        !(done is Hold),
    ensures
        mode_after(m, done, outcome) == m,
        done matches Exchange::Frame { goal: Goal::ModeChange, .. } && outcome is Ok ==> next_step(
            m,
            inverted,
            done,
            outcome,
        ) == Step::<E>::ModeSet(m),
{
}

/// The driver's mode after the exchanges of `trace` have come back to it one
/// after the other, each with the bus's verdict on it.
pub open spec fn mode_through<E>(mode: Mode, trace: Seq<(Exchange, Result<(), E>)>) -> Mode
    decreases trace.len(),
{
    if trace.len() == 0 {
        mode
    } else {
        mode_after(mode_through(mode, trace.drop_last()), trace.last().0, trace.last().1)
    }
}

/// Reading leaves the mode alone: as long as no reset hold comes back, the
/// driver is in the mode it was put in, whatever the bus and the chip did.
pub proof fn lemma_mode_kept_through_reads<E>(m: Mode, trace: Seq<(Exchange, Result<(), E>)>)
    requires
        forall|i: int| 0 <= i < trace.len() ==> !((#[trigger] trace[i]).0 is Hold),
    ensures
        mode_through(m, trace) == m,
    decreases trace.len(),
{
    if trace.len() > 0 {
        let before = trace.drop_last();
        assert forall|i: int| 0 <= i < before.len() implies !((#[trigger] before[i]).0 is Hold) by {
            assert(before[i] == trace[i]);
        }
        lemma_mode_kept_through_reads(m, before);
        assert(!(trace[trace.len() - 1].0 is Hold));
    }
}

/// A reset hold that went through leaves the driver in the chip's default
/// mode, whatever the mode was before; one that failed leaves the mode alone.
pub proof fn lemma_reset_restores_default<E>(
    mode: Mode,
    inverted: bool,
    done: Exchange,
    outcome: Result<(), E>,
)
    requires
        done is Hold,
    ensures
        outcome is Ok ==> mode_after(mode, done, outcome) == Mode::ChAGain128 && next_step(
            mode,
            inverted,
            done,
            outcome,
        ) == Step::<E>::ResetDone,
        outcome is Err ==> mode_after(mode, done, outcome) == mode && next_step(
            mode,
            inverted,
            done,
            outcome,
        ) == Step::Failed(Error::Spi(outcome->Err_0)),
{
}

} // verus!
