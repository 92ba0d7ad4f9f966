//! The one failure type shared by protocol, I/O and configuration code.
//!
//! Every subsystem reports through [`Error`]. Failures that come from below
//! (the platform, the parsers, the internal channel) are wrapped whole, so that
//! whoever inspects the error still holds the value that was raised. Each such
//! failure converts with `From`, which is what `?` uses.
//!
//! `M` is the type of the messages that travel over the internal channel: a
//! failed delivery hands the undelivered message back inside the error.

use vstd::prelude::*;

verus! {

/// `std::io::Error`, carried through as an opaque value.
#[verifier::external_type_specification]
#[verifier::external_body]
pub struct ExIoError(std::io::Error);

/// `std::num::ParseIntError`, carried through as an opaque value.
#[verifier::external_type_specification]
#[verifier::external_body]
pub struct ExStrParseIntError(std::num::ParseIntError);

/// `btoi::ParseIntegerError`, carried through as an opaque value.
#[verifier::external_type_specification]
#[verifier::external_body]
pub struct ExParseIntegerError(btoi::ParseIntegerError);

/// `futures::unsync::mpsc::SendError<T>`, carried through as an opaque value.
/// It owns the message of type `T` that could not be delivered.
#[verifier::external_type_specification]
#[verifier::external_body]
#[verifier::reject_recursive_types(T)]
pub struct ExSendError<T>(futures::unsync::mpsc::SendError<T>);

/// A socket address that did not parse. The platform's own error value tells
/// nothing but which kind of address was expected, and it does so in its
/// message: the message is what is kept.
#[derive(Debug, PartialEq, Eq)]
pub struct AddrParseFailure {
    pub message: String,
}

/// Everything that can go wrong, or be signalled, in the service.
///
/// `NoError` and `MoreData` are control signals that travel the same way as
/// real failures: the first says that nothing is wrong, the second that the
/// input seen so far does not yet allow a decision.
#[derive(Debug)]
#[verifier::reject_recursive_types(M)]
pub enum Error<M> {
    /// Sentinel: no error.
    NoError,
    /// More input is needed before anything can be decided.
    MoreData,
    /// The request is well-formed but asks for something not offered.
    NotSupport,
    /// Malformed protocol message.
    BadMsg,
    /// Malformed or unacceptable key.
    BadKey,
    /// Unknown or malformed command.
    BadCmd,
    /// Unusable configuration.
    BadConfig,
    /// Unusable cluster slot map.
    BadSlotsMap,
    /// A platform I/O failure.
    IoError(std::io::Error),
    /// Unrecoverable: the connection or the process must stop.
    Critical,
    /// A number in text that did not parse.
    StrParseIntError(std::num::ParseIntError),
    /// A number in protocol bytes that did not parse.
    ParseIntError(btoi::ParseIntegerError),
    /// A message that the internal channel could not deliver, with the message.
    SendError(futures::unsync::mpsc::SendError<M>),
    /// A socket address that did not parse.
    AddrParseError(AddrParseFailure),
}

/// Result of any operation that fails with [`Error`].
pub type AsResult<T, M> = Result<T, Error<M>>;

impl<M> From<AddrParseFailure> for Error<M> {
    fn from(oe: AddrParseFailure) -> (r: Error<M>)
        ensures
            r == Error::<M>::AddrParseError(oe),
    {
        Error::AddrParseError(oe)
    }
}

impl<M> vstd::std_specs::convert::FromSpecImpl<AddrParseFailure> for Error<M> {
    open spec fn obeys_from_spec() -> bool {
        true
    }

    open spec fn from_spec(oe: AddrParseFailure) -> Error<M> {
        Error::AddrParseError(oe)
    }
}

impl<M> From<futures::unsync::mpsc::SendError<M>> for Error<M> {
    fn from(oe: futures::unsync::mpsc::SendError<M>) -> (r: Error<M>)
        ensures
            r == Error::<M>::SendError(oe),
    {
        Error::SendError(oe)
    }
}

impl<M> vstd::std_specs::convert::FromSpecImpl<futures::unsync::mpsc::SendError<M>> for Error<M> {
    open spec fn obeys_from_spec() -> bool {
        true
    }

    open spec fn from_spec(oe: futures::unsync::mpsc::SendError<M>) -> Error<M> {
        Error::SendError(oe)
    }
}

impl<M> From<std::io::Error> for Error<M> {
    fn from(oe: std::io::Error) -> (r: Error<M>)
        ensures
            r == Error::<M>::IoError(oe),
    {
        Error::IoError(oe)
    }
}

impl<M> vstd::std_specs::convert::FromSpecImpl<std::io::Error> for Error<M> {
    open spec fn obeys_from_spec() -> bool {
        true
    }

    open spec fn from_spec(oe: std::io::Error) -> Error<M> {
        Error::IoError(oe)
    }
}

impl<M> From<btoi::ParseIntegerError> for Error<M> {
    fn from(oe: btoi::ParseIntegerError) -> (r: Error<M>)
        ensures
            r == Error::<M>::ParseIntError(oe),
    {
        Error::ParseIntError(oe)
    }
}

impl<M> vstd::std_specs::convert::FromSpecImpl<btoi::ParseIntegerError> for Error<M> {
    open spec fn obeys_from_spec() -> bool {
        true
    }

    open spec fn from_spec(oe: btoi::ParseIntegerError) -> Error<M> {
        Error::ParseIntError(oe)
    }
}

impl<M> From<std::num::ParseIntError> for Error<M> {
    fn from(oe: std::num::ParseIntError) -> (r: Error<M>)
        ensures
            r == Error::<M>::StrParseIntError(oe),
    {
        Error::StrParseIntError(oe)
    }
}

impl<M> vstd::std_specs::convert::FromSpecImpl<std::num::ParseIntError> for Error<M> {
    open spec fn obeys_from_spec() -> bool {
        true
    }

    open spec fn from_spec(oe: std::num::ParseIntError) -> Error<M> {
        Error::StrParseIntError(oe)
    }
}

} // verus!
