//! What can go wrong in an operation of the driver.

use vstd::prelude::*;
use vstd::std_specs::convert::FromSpecImpl;

verus! {

/// Failure of a driver operation. `E` is the error type of the bus.
#[derive(Debug, PartialEq, Eq)]
pub enum Error<E> {
    /// The bus reported a failure. The chip may be out of step with the driver.
    Spi(E),
    /// The chip did not report a finished conversion within the retry bound.
    NotReadyInTime,
    /// The operation cannot be done over a bus that only transfers buffers.
    Unsupported,
}

impl<E> From<E> for Error<E> {
    fn from(error: E) -> (wrapped: Self) {
        Error::Spi(error)
    }
}

impl<E> FromSpecImpl<E> for Error<E> {
    open spec fn obeys_from_spec() -> bool {
        true
    }

    open spec fn from_spec(error: E) -> Self {
        Error::Spi(error)
    }
}

} // verus!
