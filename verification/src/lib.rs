//! Driver core for the HX711 load-cell converter on a plain SPI bus.
//!
//! The chip is clocked over the bus's data-out line: every clock pulse is a
//! pair of transferred bits, so that one byte carries four pulses and returns
//! four sample bits. The driver decides which bytes go on the bus and what the
//! answers mean; the bus transfers themselves are made by whoever owns the
//! executor, which hands each answer back to the driver.
//!
//! - [`signal`]: the bytes that go out, for either polarity of the line.
//! - [`decode`]: the sample in the bytes that come back.
//! - [`driver`]: the driver and the steps of its operations.
//! - [`error`]: how an operation can fail.
//! - [`readout`]: averaging of answers that are read as whole words.

pub mod decode;
pub mod driver;
pub mod error;
pub mod readout;
pub mod signal;

pub use decode::decode_output;
pub use driver::{Exchange, Goal, Hx711, Step};
pub use error::Error;
pub use readout::HX711Mode;
pub use signal::{
    Mode, CLOCK, GAIN128, GAIN32, GAIN64, READY_RETRIES, RESET_HOLD_US, RESET_LEN, SIGNAL_HIGH,
    SIGNAL_LOW,
};
