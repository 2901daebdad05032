//! The crate's error type.
//!
//! Every fallible path surfaces through [`Error`]. Variants are public API: the
//! failure modes are part of the contract, so adding one is a behavior change.

use vstd::prelude::*;
use vstd::std_specs::convert::FromSpecImpl;

use crate::frame::exception::ExceptionCode;
use crate::frame::function::FunctionCode;

verus! {

/// The platform's classification of an I/O failure, carried through the
/// library untouched.
#[verifier::external_type_specification]
#[verifier::external_body]
pub struct ExIoErrorKind(std::io::ErrorKind);

/// An I/O failure as the platform reports it.
#[verifier::external_type_specification]
#[verifier::external_body]
pub struct ExIoError(std::io::Error);

/// `ErrorKind` is `Copy`: its `clone` hands back the value it was given.
pub assume_specification [<std::io::ErrorKind as Clone>::clone](k: &std::io::ErrorKind) -> (r: std::io::ErrorKind)
    ensures
        r == *k,
;

/// A Modbus encoding, decoding, transport or protocol failure.
#[derive(Debug, Clone, PartialEq, Eq)]
pub enum Error {
    /// Input ended before the layout was satisfied.
    Truncated {
        /// Bytes the layout requires.
        expected: usize,
        /// Bytes actually supplied.
        supplied: usize,
    },
    /// Input carried more bytes than the layout requires.
    TrailingBytes {
        /// Surplus byte count.
        extra: usize,
    },
    /// A function code that cannot denote a request: 0, or 128–255.
    InvalidFunctionCode(u8),
    /// A custom or general value was given a code the crate already names.
    ReservedCode(u8),
    /// A field or PDU whose length is fixed by its layout did not have it.
    InvalidLength {
        /// Bytes the layout fixes.
        expected: usize,
        /// Bytes actually present.
        actual: usize,
    },
    /// A field fell outside the range its function code fixes.
    OutOfRange {
        /// The field that was out of range.
        field: &'static str,
        /// The offending value.
        value: u32,
        /// Smallest permitted value.
        min: u32,
        /// Largest permitted value.
        max: u32,
    },
    /// An ADU's checksum did not match the bytes it covers.
    Checksum {
        /// The checksum computed over the ADU's own bytes.
        expected: u16,
        /// The checksum the ADU carried.
        actual: u16,
    },
    /// An ASCII ADU was not framed correctly.
    Framing {
        /// Which part of the framing was wrong.
        element: &'static str,
    },
    /// A character outside `0`-`9`, `A`-`F`, `a`-`f` where a hexadecimal
    /// digit is required.
    InvalidCharacter(u8),
    /// An MBAP header carried a protocol identifier other than 0.
    ProtocolIdentifier(u16),
    /// An ADU exceeded the maximum its framing permits.
    AduTooLarge {
        /// The oversized length.
        len: usize,
        /// The framing's maximum.
        max: usize,
    },
    /// A file record named a reference type other than 6.
    ReferenceType(u8),
    /// A field carried a value its layout does not define.
    IllegalValue {
        /// The field that was illegal.
        field: &'static str,
        /// The offending value.
        value: u16,
    },
    /// A byte-count field disagreed with the data present or with the value
    /// its quantity field implies.
    ByteCountMismatch {
        /// The byte count the layout implies.
        expected: usize,
        /// The byte count actually found.
        actual: usize,
    },
    /// An encoded PDU exceeded the 253-byte maximum.
    PduTooLarge {
        /// The size that would have been emitted.
        len: usize,
        /// The maximum permitted size.
        max: usize,
    },
    /// A structural parse failure with no more specific cause.
    Malformed,
    /// An I/O failure on a socket or a serial port.
    Io {
        /// What the operating system reported.
        kind: std::io::ErrorKind,
    },
    /// An operation did not complete within its time limit.
    Timeout {
        /// The operation that timed out.
        what: &'static str,
    },
    /// The peer closed the connection part-way through an ADU.
    ConnectionClosed,
    /// A configuration field held a value the transport cannot use.
    Configuration {
        /// The offending field.
        field: &'static str,
    },
    /// The server refused the request with a protocol exception.
    Exception {
        /// The function the exception answers.
        function: FunctionCode,
        /// The exception the server chose.
        exception: ExceptionCode,
    },
    /// A response matched the request's header but carried another
    /// function's body.
    UnexpectedFunction {
        /// The function requested.
        expected: FunctionCode,
        /// The function the response carried.
        actual: FunctionCode,
    },
    /// A function code or MEI type whose length cannot be derived from its
    /// bytes.
    IndeterminateLength {
        /// The function code whose length cannot be determined.
        function: u8,
    },
    /// What the peer will send next is no longer known, so no further request
    /// may be issued on this connection.
    Desynchronized,
    /// A blocking method was called from a thread that already drives an
    /// async runtime.
    BlockingInAsyncContext,
    /// The kernel's RS-485 direction-control mode could not be applied.
    Rs485Unsupported,
    /// A TLS handshake failed, distinct from a TCP connect failure or a
    /// timeout.
    TlsHandshake,
}

impl Error {
    /// Whether a failure ends the byte stream itself: an I/O failure, a
    /// closed connection or a timeout.
    pub open spec fn spec_ends_stream(self) -> bool {
        self is Io || self is ConnectionClosed || self is Timeout
    }

    /// Whether this failure ends the byte stream itself, rather than costing
    /// one frame.
    ///
    /// An I/O failure, a closed connection or a timeout say nothing about
    /// framing: the stream is over. Every other variant is a frame failure,
    /// and whether it is survivable is then the framing's answer.
    pub fn ends_stream(&self) -> (r: bool)
        ensures
            r == self.spec_ends_stream(),
    {
        match self {
            Error::Io { .. } | Error::ConnectionClosed | Error::Timeout { .. } => true,
            _ => false,
        }
    }
}

/// The kind an I/O error carries.
pub uninterp spec fn io_kind_of(error: std::io::Error) -> std::io::ErrorKind;

/// Reads the kind an I/O error carries, through `std::io::Error::kind`; the
/// contract names the result and says nothing of which kind it is.
#[verifier::external_body]
fn io_error_kind(error: &std::io::Error) -> (k: std::io::ErrorKind)
    ensures
        k == io_kind_of(*error),
{
    error.kind()
}

/// Whether an I/O error kind is `UnexpectedEof`, the kind a stream reports
/// when it ends.
pub uninterp spec fn is_unexpected_eof(kind: std::io::ErrorKind) -> bool;

/// Compares a kind with `std::io::ErrorKind::UnexpectedEof`.
#[verifier::external_body]
pub(crate) fn kind_is_unexpected_eof(kind: &std::io::ErrorKind) -> (r: bool)
    ensures
        r == is_unexpected_eof(*kind),
{
    *kind == std::io::ErrorKind::UnexpectedEof
}

/// The kind `std::io::ErrorKind::UnexpectedEof`.
#[verifier::external_body]
pub(crate) fn unexpected_eof() -> (k: std::io::ErrorKind)
    ensures
        is_unexpected_eof(k),
{
    std::io::ErrorKind::UnexpectedEof
}

impl From<std::io::Error> for Error {
    /// An I/O failure surfaces as the kind the platform reported.
    fn from(error: std::io::Error) -> (r: Self)
        ensures
            r == (Error::Io { kind: io_kind_of(error) }),
    {
        Error::Io { kind: io_error_kind(&error) }
    }
}

impl FromSpecImpl<std::io::Error> for Error {
    open spec fn obeys_from_spec() -> bool {
        true
    }

    open spec fn from_spec(v: std::io::Error) -> Error {
        Error::Io { kind: io_kind_of(v) }
    }
}

/// Result alias for this crate.
pub type Result<T> = core::result::Result<T, Error>;

} // verus!
