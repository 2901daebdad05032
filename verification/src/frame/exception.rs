//! Modbus exception responses.

use vstd::prelude::*;
use vstd::string::StringExecFns;

use crate::error::{Error, Result};
use crate::frame::function::FunctionCode;
use crate::text::{decimal, spec_decimal};

verus! {

/// A Modbus exception code.
///
/// The nine codes Modbus defines are named. Every other byte,
/// including 0, is carried as [`ExceptionCode::Other`]: a server's exception
/// codes are its own to choose, and a client that cannot name one must still
/// be able to report it.
#[derive(Debug, Clone, Copy, PartialEq, Eq, Hash, Structural)]
pub enum ExceptionCode {
    /// 1 — Illegal Function.
    IllegalFunction,
    /// 2 — Illegal Data Address.
    IllegalDataAddress,
    /// 3 — Illegal Data Value.
    IllegalDataValue,
    /// 4 — Server Device Failure.
    ServerDeviceFailure,
    /// 5 — Acknowledge.
    Acknowledge,
    /// 6 — Server Device Busy.
    ServerDeviceBusy,
    /// 8 — Memory Parity Error.
    MemoryParityError,
    /// 10 — Gateway Path Unavailable.
    GatewayPathUnavailable,
    /// 11 — Gateway Target Device Failed To Respond.
    GatewayTargetDeviceFailedToRespond,
    /// Any other code, carried verbatim.
    Other(u8),
}

/// The exception code bytes Modbus names.
pub open spec fn is_named_exception_byte(b: u8) -> bool {
    b == 1 || b == 2 || b == 3 || b == 4 || b == 5 || b == 6 || b == 8 || b == 10 || b == 11
}

impl ExceptionCode {
    /// The code a byte denotes.
    pub open spec fn spec_decode(b: u8) -> ExceptionCode {
        match b {
            1 => ExceptionCode::IllegalFunction,
            2 => ExceptionCode::IllegalDataAddress,
            3 => ExceptionCode::IllegalDataValue,
            4 => ExceptionCode::ServerDeviceFailure,
            5 => ExceptionCode::Acknowledge,
            6 => ExceptionCode::ServerDeviceBusy,
            8 => ExceptionCode::MemoryParityError,
            10 => ExceptionCode::GatewayPathUnavailable,
            11 => ExceptionCode::GatewayTargetDeviceFailedToRespond,
            _ => ExceptionCode::Other(b),
        }
    }

    /// What encoding a code yields.
    pub open spec fn spec_encode(self) -> Result<u8> {
        match self {
            ExceptionCode::IllegalFunction => Ok(1),
            ExceptionCode::IllegalDataAddress => Ok(2),
            ExceptionCode::IllegalDataValue => Ok(3),
            ExceptionCode::ServerDeviceFailure => Ok(4),
            ExceptionCode::Acknowledge => Ok(5),
            ExceptionCode::ServerDeviceBusy => Ok(6),
            ExceptionCode::MemoryParityError => Ok(8),
            ExceptionCode::GatewayPathUnavailable => Ok(10),
            ExceptionCode::GatewayTargetDeviceFailedToRespond => Ok(11),
            ExceptionCode::Other(b) => if is_named_exception_byte(b) {
                Err(Error::ReservedCode(b))
            } else {
                Ok(b)
            },
        }
    }

    /// The English name a code renders as; an unnamed one renders as
    /// `"Other exception "` and its decimal byte value.
    pub open spec fn spec_text(self) -> Seq<char> {
        match self {
            ExceptionCode::IllegalFunction => "Illegal Function"@,
            ExceptionCode::IllegalDataAddress => "Illegal Data Address"@,
            ExceptionCode::IllegalDataValue => "Illegal Data Value"@,
            ExceptionCode::ServerDeviceFailure => "Server Device Failure"@,
            ExceptionCode::Acknowledge => "Acknowledge"@,
            ExceptionCode::ServerDeviceBusy => "Server Device Busy"@,
            ExceptionCode::MemoryParityError => "Memory Parity Error"@,
            ExceptionCode::GatewayPathUnavailable => "Gateway Path Unavailable"@,
            ExceptionCode::GatewayTargetDeviceFailedToRespond => "Gateway Target Device Failed To Respond"@,
            ExceptionCode::Other(b) => "Other exception "@ + spec_decimal(b as nat),
        }
    }

    /// Decode an exception code byte. Infallible: every byte is a valid
    /// exception code.
    pub fn decode(byte: u8) -> (r: Self)
        ensures
            r == Self::spec_decode(byte),
    {
        match byte {
            1 => ExceptionCode::IllegalFunction,
            2 => ExceptionCode::IllegalDataAddress,
            3 => ExceptionCode::IllegalDataValue,
            4 => ExceptionCode::ServerDeviceFailure,
            5 => ExceptionCode::Acknowledge,
            6 => ExceptionCode::ServerDeviceBusy,
            8 => ExceptionCode::MemoryParityError,
            10 => ExceptionCode::GatewayPathUnavailable,
            11 => ExceptionCode::GatewayTargetDeviceFailedToRespond,
            _ => ExceptionCode::Other(byte),
        }
    }

    /// Encode to its wire byte.
    ///
    /// An [`ExceptionCode::Other`] holding a named code is rejected, so one
    /// wire byte keeps exactly one representation.
    pub fn encode(self) -> (r: Result<u8>)
        ensures
            r == self.spec_encode(),
    {
        match self {
            ExceptionCode::IllegalFunction => Ok(1),
            ExceptionCode::IllegalDataAddress => Ok(2),
            ExceptionCode::IllegalDataValue => Ok(3),
            ExceptionCode::ServerDeviceFailure => Ok(4),
            ExceptionCode::Acknowledge => Ok(5),
            ExceptionCode::ServerDeviceBusy => Ok(6),
            ExceptionCode::MemoryParityError => Ok(8),
            ExceptionCode::GatewayPathUnavailable => Ok(10),
            ExceptionCode::GatewayTargetDeviceFailedToRespond => Ok(11),
            ExceptionCode::Other(byte) => {
                if byte == 1 || byte == 2 || byte == 3 || byte == 4 || byte == 5 || byte == 6
                    || byte == 8 || byte == 10 || byte == 11 {
                    Err(Error::ReservedCode(byte))
                } else {
                    Ok(byte)
                }
            },
        }
    }

    /// The code's English name, or `"Other exception "` followed by its
    /// decimal byte value for an unnamed one.
    pub fn to_string(&self) -> (s: String)
        ensures
            s@ == self.spec_text(),
    {
        match *self {
            ExceptionCode::IllegalFunction => String::from_str("Illegal Function"),
            ExceptionCode::IllegalDataAddress => String::from_str("Illegal Data Address"),
            ExceptionCode::IllegalDataValue => String::from_str("Illegal Data Value"),
            ExceptionCode::ServerDeviceFailure => String::from_str("Server Device Failure"),
            ExceptionCode::Acknowledge => String::from_str("Acknowledge"),
            ExceptionCode::ServerDeviceBusy => String::from_str("Server Device Busy"),
            ExceptionCode::MemoryParityError => String::from_str("Memory Parity Error"),
            ExceptionCode::GatewayPathUnavailable => String::from_str("Gateway Path Unavailable"),
            ExceptionCode::GatewayTargetDeviceFailedToRespond => String::from_str(
                "Gateway Target Device Failed To Respond",
            ),
            ExceptionCode::Other(byte) => {
                let prefix = String::from_str("Other exception ");
                let digits = decimal(byte as u64);
                prefix.concat(digits.as_str())
            },
        }
    }
}

/// Every byte decodes to a code that encodes back to that byte.
pub proof fn lemma_exception_code_decode_encode(b: u8)
    ensures
        ExceptionCode::spec_decode(b).spec_encode() == Ok::<u8, Error>(b),
{
}

/// Whatever encodes decodes back to the code it came from.
pub proof fn lemma_exception_code_encode_decode(c: ExceptionCode)
    requires
        c.spec_encode() is Ok,
    ensures
        ExceptionCode::spec_decode(c.spec_encode()->Ok_0) == c,
{
}

/// An exception response: the echoed function code and the exception raised.
#[derive(Debug, Clone, Copy, PartialEq, Eq, Hash, Structural)]
pub struct ExceptionResponse {
    /// The function code of the request that failed, high bit cleared.
    pub function: FunctionCode,
    /// The exception the server reported.
    pub exception: ExceptionCode,
}

impl ExceptionResponse {
    /// What decoding a PDU as an exception response yields: exactly two bytes,
    /// the first with its high bit set.
    pub open spec fn spec_decode(pdu: Seq<u8>) -> Result<ExceptionResponse> {
        if pdu.len() != 2 {
            Err(Error::InvalidLength { expected: 2, actual: pdu.len() as usize })
        } else if pdu[0] < 0x80 {
            Err(Error::InvalidFunctionCode(pdu[0]))
        } else {
            match FunctionCode::spec_decode((pdu[0] - 0x80) as u8) {
                Err(e) => Err(e),
                Ok(function) => Ok(
                    ExceptionResponse { function, exception: ExceptionCode::spec_decode(pdu[1]) },
                ),
            }
        }
    }

    /// What encoding an exception response yields.
    pub open spec fn spec_encode(self) -> Result<Seq<u8>> {
        match self.function.spec_encode() {
            Err(e) => Err(e),
            Ok(f) => match self.exception.spec_encode() {
                Err(e) => Err(e),
                Ok(x) => Ok(seq![(f + 0x80) as u8, x]),
            },
        }
    }

    /// Decode an exception response PDU.
    ///
    /// The length is fixed at two bytes, so any other length is a length
    /// error rather than a truncation or trailing-bytes error.
    pub fn decode(pdu: &[u8]) -> (r: Result<Self>)
        ensures
            r == Self::spec_decode(pdu@),
    {
        if pdu.len() != 2 {
            return Err(Error::InvalidLength { expected: 2, actual: pdu.len() });
        }
        let raw = pdu[0];
        if raw < 0x80 {
            return Err(Error::InvalidFunctionCode(raw));
        }
        let function = match FunctionCode::decode(raw - 0x80) {
            Ok(function) => function,
            Err(e) => return Err(e),
        };
        Ok(ExceptionResponse { function, exception: ExceptionCode::decode(pdu[1]) })
    }

    /// Encode to an exception response PDU.
    ///
    /// Fails if either code has no encoding.
    pub fn encode(self) -> (r: Result<Vec<u8>>)
        ensures
            match r {
                Ok(v) => self.spec_encode() == Ok::<Seq<u8>, Error>(v@),
                Err(e) => self.spec_encode() == Err::<Seq<u8>, Error>(e),
            },
    {
        let function = match self.function.encode() {
            Ok(f) => f,
            Err(e) => return Err(e),
        };
        let exception = match self.exception.encode() {
            Ok(x) => x,
            Err(e) => return Err(e),
        };
        let mut out = Vec::new();
        out.push(function + 0x80);
        out.push(exception);
        proof {
            assert(out@ =~= seq![(function + 0x80) as u8, exception]);
        }
        Ok(out)
    }
}

/// An exception response decodes back from its encoding.
pub proof fn lemma_exception_response_roundtrip(e: ExceptionResponse)
    requires
        e.spec_encode() is Ok,
    ensures
        ExceptionResponse::spec_decode(e.spec_encode()->Ok_0) == Ok::<ExceptionResponse, Error>(e),
{
    lemma_function_code_encode_decode_for_exception(e.function);
    lemma_exception_code_encode_decode(e.exception);
}

proof fn lemma_function_code_encode_decode_for_exception(c: FunctionCode)
    requires
        c.spec_encode() is Ok,
    ensures
        c.spec_encode()->Ok_0 < 0x80,
        FunctionCode::spec_decode(c.spec_encode()->Ok_0) == Ok::<FunctionCode, Error>(c),
{
}

/// Whatever decodes as an exception response re-encodes to the same bytes.
pub proof fn lemma_exception_response_reencodes(pdu: Seq<u8>)
    requires
        ExceptionResponse::spec_decode(pdu) is Ok,
    ensures
        ExceptionResponse::spec_decode(pdu)->Ok_0.spec_encode() == Ok::<Seq<u8>, Error>(pdu),
{
    let e = ExceptionResponse::spec_decode(pdu)->Ok_0;
    crate::frame::function::lemma_function_code_decode_encode((pdu[0] - 0x80) as u8);
    lemma_exception_code_decode_encode(pdu[1]);
    assert(e.spec_encode()->Ok_0 =~= pdu);
}

/// The exception code table: each of the nine named exceptions is written as
/// its Modbus code and read back from it; every other byte is carried
/// unchanged as [`ExceptionCode::Other`].
pub proof fn lemma_exception_code_table(b: u8)
    ensures
        ExceptionCode::IllegalFunction.spec_encode() == Ok::<u8, Error>(1u8),
        ExceptionCode::IllegalDataAddress.spec_encode() == Ok::<u8, Error>(2u8),
        ExceptionCode::IllegalDataValue.spec_encode() == Ok::<u8, Error>(3u8),
        ExceptionCode::ServerDeviceFailure.spec_encode() == Ok::<u8, Error>(4u8),
        ExceptionCode::Acknowledge.spec_encode() == Ok::<u8, Error>(5u8),
        ExceptionCode::ServerDeviceBusy.spec_encode() == Ok::<u8, Error>(6u8),
        ExceptionCode::MemoryParityError.spec_encode() == Ok::<u8, Error>(8u8),
        ExceptionCode::GatewayPathUnavailable.spec_encode() == Ok::<u8, Error>(10u8),
        ExceptionCode::GatewayTargetDeviceFailedToRespond.spec_encode() == Ok::<u8, Error>(11u8),
        ExceptionCode::spec_decode(1u8) == ExceptionCode::IllegalFunction,
        ExceptionCode::spec_decode(2u8) == ExceptionCode::IllegalDataAddress,
        ExceptionCode::spec_decode(3u8) == ExceptionCode::IllegalDataValue,
        ExceptionCode::spec_decode(4u8) == ExceptionCode::ServerDeviceFailure,
        ExceptionCode::spec_decode(5u8) == ExceptionCode::Acknowledge,
        ExceptionCode::spec_decode(6u8) == ExceptionCode::ServerDeviceBusy,
        ExceptionCode::spec_decode(8u8) == ExceptionCode::MemoryParityError,
        ExceptionCode::spec_decode(10u8) == ExceptionCode::GatewayPathUnavailable,
        ExceptionCode::spec_decode(11u8) == ExceptionCode::GatewayTargetDeviceFailedToRespond,
        !(b == 1 || b == 2 || b == 3 || b == 4 || b == 5 || b == 6 || b == 8 || b == 10 || b == 11) ==> ExceptionCode::spec_decode(b) == ExceptionCode::Other(b)
            && ExceptionCode::Other(b).spec_encode() == Ok::<u8, Error>(b),
        (b == 1 || b == 2 || b == 3 || b == 4 || b == 5 || b == 6 || b == 8 || b == 10 || b == 11) ==> ExceptionCode::Other(b).spec_encode() == Err::<u8, Error>(Error::ReservedCode(b)),
{
}

/// An exception response is the requested function code with its high bit
/// set, then the exception code, and nothing more.
pub proof fn lemma_exception_response_bytes(f: FunctionCode, x: ExceptionCode)
    requires
        f.spec_encode() is Ok,
        x.spec_encode() is Ok,
    ensures
        (ExceptionResponse { function: f, exception: x }).spec_encode() == Ok::<Seq<u8>, Error>(
            seq![(f.spec_encode()->Ok_0 + 128) as u8, x.spec_encode()->Ok_0],
        ),
{
    lemma_function_code_encode_decode_for_exception(f);
}

} // verus!
