//! Serial-line diagnostic sub-functions.

use vstd::prelude::*;

use crate::error::{Error, Result};

verus! {

/// A Diagnostics sub-function code.
#[derive(Debug, Clone, Copy, PartialEq, Eq, Structural)]
pub enum DiagnosticSubFunction {
    /// 0 — Return Query Data.
    ReturnQueryData,
    /// 1 — Restart Communications Option.
    RestartCommunicationsOption,
    /// 2 — Return Diagnostic Register.
    ReturnDiagnosticRegister,
    /// 3 — Change ASCII Input Delimiter.
    ChangeAsciiInputDelimiter,
    /// 4 — Force Listen Only Mode.
    ForceListenOnlyMode,
    /// 10 — Clear Counters and Diagnostic Register.
    ClearCountersAndDiagnosticRegister,
    /// 11 — Return Bus Message Count.
    ReturnBusMessageCount,
    /// 12 — Return Bus Communication Error Count.
    ReturnBusCommunicationErrorCount,
    /// 13 — Return Bus Exception Error Count.
    ReturnBusExceptionErrorCount,
    /// 14 — Return Server Message Count.
    ReturnServerMessageCount,
    /// 15 — Return Server No Response Count.
    ReturnServerNoResponseCount,
    /// 16 — Return Server NAK Count.
    ReturnServerNakCount,
    /// 17 — Return Server Busy Count.
    ReturnServerBusyCount,
    /// 18 — Return Bus Character Overrun Count.
    ReturnBusCharacterOverrunCount,
    /// 20 — Clear Overrun Counter and Flag.
    ClearOverrunCounterAndFlag,
    /// Any code Modbus does not name, the reserved range 5–9
    /// included.
    Other(u16),
}

/// The sub-function codes Modbus names.
pub open spec fn is_named_sub_function(raw: u16) -> bool {
    raw == 0 || raw == 1 || raw == 2 || raw == 3 || raw == 4 || raw == 10 || raw == 11 || raw == 12 || raw == 13 || raw == 14 || raw == 15 || raw == 16 || raw == 17 || raw == 18 || raw == 20
}

/// A sub-function code narrowed for [`Error::ReservedCode`], which reports
/// 8-bit codes; one that does not fit reports as 255.
pub open spec fn spec_as_u8(raw: u16) -> u8 {
    if raw <= 255 {
        raw as u8
    } else {
        255
    }
}

impl DiagnosticSubFunction {
    /// The sub-function a code denotes.
    pub open spec fn spec_decode(raw: u16) -> DiagnosticSubFunction {
        match raw {
            0 => DiagnosticSubFunction::ReturnQueryData,
            1 => DiagnosticSubFunction::RestartCommunicationsOption,
            2 => DiagnosticSubFunction::ReturnDiagnosticRegister,
            3 => DiagnosticSubFunction::ChangeAsciiInputDelimiter,
            4 => DiagnosticSubFunction::ForceListenOnlyMode,
            10 => DiagnosticSubFunction::ClearCountersAndDiagnosticRegister,
            11 => DiagnosticSubFunction::ReturnBusMessageCount,
            12 => DiagnosticSubFunction::ReturnBusCommunicationErrorCount,
            13 => DiagnosticSubFunction::ReturnBusExceptionErrorCount,
            14 => DiagnosticSubFunction::ReturnServerMessageCount,
            15 => DiagnosticSubFunction::ReturnServerNoResponseCount,
            16 => DiagnosticSubFunction::ReturnServerNakCount,
            17 => DiagnosticSubFunction::ReturnServerBusyCount,
            18 => DiagnosticSubFunction::ReturnBusCharacterOverrunCount,
            20 => DiagnosticSubFunction::ClearOverrunCounterAndFlag,
            _ => DiagnosticSubFunction::Other(raw),
        }
    }

    /// What encoding a sub-function yields.
    pub open spec fn spec_encode(self) -> Result<u16> {
        match self {
            DiagnosticSubFunction::ReturnQueryData => Ok(0),
            DiagnosticSubFunction::RestartCommunicationsOption => Ok(1),
            DiagnosticSubFunction::ReturnDiagnosticRegister => Ok(2),
            DiagnosticSubFunction::ChangeAsciiInputDelimiter => Ok(3),
            DiagnosticSubFunction::ForceListenOnlyMode => Ok(4),
            DiagnosticSubFunction::ClearCountersAndDiagnosticRegister => Ok(10),
            DiagnosticSubFunction::ReturnBusMessageCount => Ok(11),
            DiagnosticSubFunction::ReturnBusCommunicationErrorCount => Ok(12),
            DiagnosticSubFunction::ReturnBusExceptionErrorCount => Ok(13),
            DiagnosticSubFunction::ReturnServerMessageCount => Ok(14),
            DiagnosticSubFunction::ReturnServerNoResponseCount => Ok(15),
            DiagnosticSubFunction::ReturnServerNakCount => Ok(16),
            DiagnosticSubFunction::ReturnServerBusyCount => Ok(17),
            DiagnosticSubFunction::ReturnBusCharacterOverrunCount => Ok(18),
            DiagnosticSubFunction::ClearOverrunCounterAndFlag => Ok(20),
            DiagnosticSubFunction::Other(raw) => if is_named_sub_function(raw) {
                Err(Error::ReservedCode(spec_as_u8(raw)))
            } else {
                Ok(raw)
            },
        }
    }

    /// Decode a sub-function code; every value decodes.
    pub fn decode(raw: u16) -> (r: Self)
        ensures
            r == Self::spec_decode(raw),
    {
        match raw {
            0 => DiagnosticSubFunction::ReturnQueryData,
            1 => DiagnosticSubFunction::RestartCommunicationsOption,
            2 => DiagnosticSubFunction::ReturnDiagnosticRegister,
            3 => DiagnosticSubFunction::ChangeAsciiInputDelimiter,
            4 => DiagnosticSubFunction::ForceListenOnlyMode,
            10 => DiagnosticSubFunction::ClearCountersAndDiagnosticRegister,
            11 => DiagnosticSubFunction::ReturnBusMessageCount,
            12 => DiagnosticSubFunction::ReturnBusCommunicationErrorCount,
            13 => DiagnosticSubFunction::ReturnBusExceptionErrorCount,
            14 => DiagnosticSubFunction::ReturnServerMessageCount,
            15 => DiagnosticSubFunction::ReturnServerNoResponseCount,
            16 => DiagnosticSubFunction::ReturnServerNakCount,
            17 => DiagnosticSubFunction::ReturnServerBusyCount,
            18 => DiagnosticSubFunction::ReturnBusCharacterOverrunCount,
            20 => DiagnosticSubFunction::ClearOverrunCounterAndFlag,
            _ => DiagnosticSubFunction::Other(raw),
        }
    }

    /// Encode a sub-function code.
    ///
    /// A [`DiagnosticSubFunction::Other`] holding a code the crate names is
    /// rejected, so no code has two encodings.
    pub fn encode(self) -> (r: Result<u16>)
        ensures
            r == self.spec_encode(),
    {
        let code = match self {
            DiagnosticSubFunction::ReturnQueryData => 0,
            DiagnosticSubFunction::RestartCommunicationsOption => 1,
            DiagnosticSubFunction::ReturnDiagnosticRegister => 2,
            DiagnosticSubFunction::ChangeAsciiInputDelimiter => 3,
            DiagnosticSubFunction::ForceListenOnlyMode => 4,
            DiagnosticSubFunction::ClearCountersAndDiagnosticRegister => 10,
            DiagnosticSubFunction::ReturnBusMessageCount => 11,
            DiagnosticSubFunction::ReturnBusCommunicationErrorCount => 12,
            DiagnosticSubFunction::ReturnBusExceptionErrorCount => 13,
            DiagnosticSubFunction::ReturnServerMessageCount => 14,
            DiagnosticSubFunction::ReturnServerNoResponseCount => 15,
            DiagnosticSubFunction::ReturnServerNakCount => 16,
            DiagnosticSubFunction::ReturnServerBusyCount => 17,
            DiagnosticSubFunction::ReturnBusCharacterOverrunCount => 18,
            DiagnosticSubFunction::ClearOverrunCounterAndFlag => 20,
            DiagnosticSubFunction::Other(raw) => {
                if raw == 0 || raw == 1 || raw == 2 || raw == 3 || raw == 4 || raw == 10 || raw == 11 || raw == 12 || raw == 13 || raw == 14 || raw == 15 || raw == 16 || raw == 17 || raw == 18 || raw == 20 {
                    return Err(Error::ReservedCode(as_u8(raw)));
                }
                raw
            },
        };
        Ok(code)
    }
}

/// Narrow a sub-function code for [`Error::ReservedCode`].
fn as_u8(raw: u16) -> (r: u8)
    ensures
        r == spec_as_u8(raw),
{
    if raw <= 255 {
        raw as u8
    } else {
        255
    }
}

/// Every code decodes to a sub-function that encodes back to it.
pub proof fn lemma_sub_function_decode_encode(raw: u16)
    ensures
        DiagnosticSubFunction::spec_decode(raw).spec_encode() == Ok::<u16, Error>(raw),
{
}

/// Whatever encodes decodes back to the sub-function it came from.
pub proof fn lemma_sub_function_encode_decode(s: DiagnosticSubFunction)
    requires
        s.spec_encode() is Ok,
    ensures
        DiagnosticSubFunction::spec_decode(s.spec_encode()->Ok_0) == s,
{
}

/// The sub-function table of Modbus function 8: each named sub-function is
/// written as its own code and read back from it, and every other code is
/// carried unchanged as [`DiagnosticSubFunction::Other`], while an `Other`
/// holding a named code is refused.
pub proof fn lemma_sub_function_table(raw: u16)
    ensures
        DiagnosticSubFunction::ReturnQueryData.spec_encode() == Ok::<u16, Error>(0u16),
        DiagnosticSubFunction::RestartCommunicationsOption.spec_encode() == Ok::<u16, Error>(1u16),
        DiagnosticSubFunction::ReturnDiagnosticRegister.spec_encode() == Ok::<u16, Error>(2u16),
        DiagnosticSubFunction::ChangeAsciiInputDelimiter.spec_encode() == Ok::<u16, Error>(3u16),
        DiagnosticSubFunction::ForceListenOnlyMode.spec_encode() == Ok::<u16, Error>(4u16),
        DiagnosticSubFunction::ClearCountersAndDiagnosticRegister.spec_encode() == Ok::<u16, Error>(10u16),
        DiagnosticSubFunction::ReturnBusMessageCount.spec_encode() == Ok::<u16, Error>(11u16),
        DiagnosticSubFunction::ReturnBusCommunicationErrorCount.spec_encode() == Ok::<u16, Error>(12u16),
        DiagnosticSubFunction::ReturnBusExceptionErrorCount.spec_encode() == Ok::<u16, Error>(13u16),
        DiagnosticSubFunction::ReturnServerMessageCount.spec_encode() == Ok::<u16, Error>(14u16),
        DiagnosticSubFunction::ReturnServerNoResponseCount.spec_encode() == Ok::<u16, Error>(15u16),
        DiagnosticSubFunction::ReturnServerNakCount.spec_encode() == Ok::<u16, Error>(16u16),
        DiagnosticSubFunction::ReturnServerBusyCount.spec_encode() == Ok::<u16, Error>(17u16),
        DiagnosticSubFunction::ReturnBusCharacterOverrunCount.spec_encode() == Ok::<u16, Error>(18u16),
        DiagnosticSubFunction::ClearOverrunCounterAndFlag.spec_encode() == Ok::<u16, Error>(20u16),
        DiagnosticSubFunction::spec_decode(0u16) == DiagnosticSubFunction::ReturnQueryData,
        DiagnosticSubFunction::spec_decode(1u16) == DiagnosticSubFunction::RestartCommunicationsOption,
        DiagnosticSubFunction::spec_decode(2u16) == DiagnosticSubFunction::ReturnDiagnosticRegister,
        DiagnosticSubFunction::spec_decode(3u16) == DiagnosticSubFunction::ChangeAsciiInputDelimiter,
        DiagnosticSubFunction::spec_decode(4u16) == DiagnosticSubFunction::ForceListenOnlyMode,
        DiagnosticSubFunction::spec_decode(10u16) == DiagnosticSubFunction::ClearCountersAndDiagnosticRegister,
        DiagnosticSubFunction::spec_decode(11u16) == DiagnosticSubFunction::ReturnBusMessageCount,
        DiagnosticSubFunction::spec_decode(12u16) == DiagnosticSubFunction::ReturnBusCommunicationErrorCount,
        DiagnosticSubFunction::spec_decode(13u16) == DiagnosticSubFunction::ReturnBusExceptionErrorCount,
        DiagnosticSubFunction::spec_decode(14u16) == DiagnosticSubFunction::ReturnServerMessageCount,
        DiagnosticSubFunction::spec_decode(15u16) == DiagnosticSubFunction::ReturnServerNoResponseCount,
        DiagnosticSubFunction::spec_decode(16u16) == DiagnosticSubFunction::ReturnServerNakCount,
        DiagnosticSubFunction::spec_decode(17u16) == DiagnosticSubFunction::ReturnServerBusyCount,
        DiagnosticSubFunction::spec_decode(18u16) == DiagnosticSubFunction::ReturnBusCharacterOverrunCount,
        DiagnosticSubFunction::spec_decode(20u16) == DiagnosticSubFunction::ClearOverrunCounterAndFlag,
        !(raw == 0 || raw == 1 || raw == 2 || raw == 3 || raw == 4 || raw == 10 || raw == 11 || raw == 12 || raw == 13 || raw == 14 || raw == 15 || raw == 16 || raw == 17 || raw == 18 || raw == 20) ==> DiagnosticSubFunction::spec_decode(raw) == DiagnosticSubFunction::Other(raw)
            && DiagnosticSubFunction::Other(raw).spec_encode() == Ok::<u16, Error>(raw),
        (raw == 0 || raw == 1 || raw == 2 || raw == 3 || raw == 4 || raw == 10 || raw == 11 || raw == 12 || raw == 13 || raw == 14 || raw == 15 || raw == 16 || raw == 17 || raw == 18 || raw == 20) ==> DiagnosticSubFunction::Other(raw).spec_encode() is Err,
{
}

} // verus!
