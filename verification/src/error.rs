//! Failures the driver reports.

use vstd::prelude::*;
use vstd::std_specs::convert::FromSpecImpl;

verus! {

/// Why an operation on the converter failed.
#[derive(Debug, PartialEq, Eq)]
#[non_exhaustive]
pub enum Error<E> {
    /// The bus failed a transaction; its own error is passed on unchanged.
    I2cError(E),
    /// Reserved: frames arrived out of their expected order.
    _DataItemsMisOrdered,
    /// The requested channel never appeared in the stream within the retry budget.
    IncorrectChannelAddress,
    /// A stream frame carried a tag that names no channel.
    InvalidChannelAddress,
    /// What the bus handed back does not fit the transaction that was outstanding.
    UnexpectedReply,
}

impl<E> From<E> for Error<E> {
    fn from(other: E) -> (error: Self) {
        Error::I2cError(other)
    }
}

impl<E> FromSpecImpl<E> for Error<E> {
    open spec fn obeys_from_spec() -> bool {
        true
    }

    open spec fn from_spec(other: E) -> Self {
        Error::I2cError(other)
    }
}

} // verus!
