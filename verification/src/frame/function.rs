//! Modbus function codes.

use vstd::prelude::*;

use crate::error::{Error, Result};

verus! {

/// A Modbus function code.
///
/// The nineteen public codes of the Modbus application protocol are named.
/// Every other code in 1–127 is carried as [`FunctionCode::Custom`] with an
/// opaque body. Code 0 is invalid, and 128–255 is exception-response
/// space, never a request.
#[derive(Debug, Clone, Copy, PartialEq, Eq, Hash, Structural)]
pub enum FunctionCode {
    /// 1 — Read Coils.
    ReadCoils,
    /// 2 — Read Discrete Inputs.
    ReadDiscreteInputs,
    /// 3 — Read Holding Registers.
    ReadHoldingRegisters,
    /// 4 — Read Input Registers.
    ReadInputRegisters,
    /// 5 — Write Single Coil.
    WriteSingleCoil,
    /// 6 — Write Single Register.
    WriteSingleRegister,
    /// 7 — Read Exception Status.
    ReadExceptionStatus,
    /// 8 — Diagnostics.
    Diagnostics,
    /// 11 — Get Comm Event Counter.
    GetCommEventCounter,
    /// 12 — Get Comm Event Log.
    GetCommEventLog,
    /// 15 — Write Multiple Coils.
    WriteMultipleCoils,
    /// 16 — Write Multiple Registers.
    WriteMultipleRegisters,
    /// 17 — Report Server ID.
    ReportServerId,
    /// 20 — Read File Record.
    ReadFileRecord,
    /// 21 — Write File Record.
    WriteFileRecord,
    /// 22 — Mask Write Register.
    MaskWriteRegister,
    /// 23 — Read/Write Multiple Registers.
    ReadWriteMultipleRegisters,
    /// 24 — Read FIFO Queue.
    ReadFifoQueue,
    /// 43 — Encapsulated Interface Transport.
    EncapsulatedInterfaceTransport,
    /// Any other code in 1–127, carried verbatim with an opaque body.
    Custom(u8),
}

/// The wire bytes Modbus names.
pub open spec fn is_named_function_byte(b: u8) -> bool {
    b == 1 || b == 2 || b == 3 || b == 4 || b == 5 || b == 6 || b == 7 || b == 8 || b == 11
        || b == 12 || b == 15 || b == 16 || b == 17 || b == 20 || b == 21 || b == 22 || b == 23
        || b == 24 || b == 43
}

impl FunctionCode {
    /// The variant a byte in 1–127 denotes.
    pub open spec fn from_byte(b: u8) -> FunctionCode {
        match b {
            1 => FunctionCode::ReadCoils,
            2 => FunctionCode::ReadDiscreteInputs,
            3 => FunctionCode::ReadHoldingRegisters,
            4 => FunctionCode::ReadInputRegisters,
            5 => FunctionCode::WriteSingleCoil,
            6 => FunctionCode::WriteSingleRegister,
            7 => FunctionCode::ReadExceptionStatus,
            8 => FunctionCode::Diagnostics,
            11 => FunctionCode::GetCommEventCounter,
            12 => FunctionCode::GetCommEventLog,
            15 => FunctionCode::WriteMultipleCoils,
            16 => FunctionCode::WriteMultipleRegisters,
            17 => FunctionCode::ReportServerId,
            20 => FunctionCode::ReadFileRecord,
            21 => FunctionCode::WriteFileRecord,
            22 => FunctionCode::MaskWriteRegister,
            23 => FunctionCode::ReadWriteMultipleRegisters,
            24 => FunctionCode::ReadFifoQueue,
            43 => FunctionCode::EncapsulatedInterfaceTransport,
            _ => FunctionCode::Custom(b),
        }
    }

    /// The byte a variant stands for (for `Custom`, the byte it carries).
    pub open spec fn code(self) -> u8 {
        match self {
            FunctionCode::ReadCoils => 1,
            FunctionCode::ReadDiscreteInputs => 2,
            FunctionCode::ReadHoldingRegisters => 3,
            FunctionCode::ReadInputRegisters => 4,
            FunctionCode::WriteSingleCoil => 5,
            FunctionCode::WriteSingleRegister => 6,
            FunctionCode::ReadExceptionStatus => 7,
            FunctionCode::Diagnostics => 8,
            FunctionCode::GetCommEventCounter => 11,
            FunctionCode::GetCommEventLog => 12,
            FunctionCode::WriteMultipleCoils => 15,
            FunctionCode::WriteMultipleRegisters => 16,
            FunctionCode::ReportServerId => 17,
            FunctionCode::ReadFileRecord => 20,
            FunctionCode::WriteFileRecord => 21,
            FunctionCode::MaskWriteRegister => 22,
            FunctionCode::ReadWriteMultipleRegisters => 23,
            FunctionCode::ReadFifoQueue => 24,
            FunctionCode::EncapsulatedInterfaceTransport => 43,
            FunctionCode::Custom(b) => b,
        }
    }

    /// What decoding a request-direction function code byte yields.
    pub open spec fn spec_decode(b: u8) -> Result<FunctionCode> {
        if b == 0 || b >= 0x80 {
            Err(Error::InvalidFunctionCode(b))
        } else {
            Ok(FunctionCode::from_byte(b))
        }
    }

    /// What encoding a function code yields.
    pub open spec fn spec_encode(self) -> Result<u8> {
        match self {
            FunctionCode::Custom(b) => if b == 0 || b >= 0x80 {
                Err(Error::InvalidFunctionCode(b))
            } else if is_named_function_byte(b) {
                Err(Error::ReservedCode(b))
            } else {
                Ok(b)
            },
            _ => Ok(self.code()),
        }
    }

    /// Decode a request-direction function code byte.
    ///
    /// Fails for 0 and for 128–255, which are exception space. Anything else in
    /// range that is not named becomes [`FunctionCode::Custom`].
    pub fn decode(byte: u8) -> (r: Result<Self>)
        ensures
            r == Self::spec_decode(byte),
    {
        if byte == 0 || byte >= 0x80 {
            return Err(Error::InvalidFunctionCode(byte));
        }
        let code = match byte {
            1 => FunctionCode::ReadCoils,
            2 => FunctionCode::ReadDiscreteInputs,
            3 => FunctionCode::ReadHoldingRegisters,
            4 => FunctionCode::ReadInputRegisters,
            5 => FunctionCode::WriteSingleCoil,
            6 => FunctionCode::WriteSingleRegister,
            7 => FunctionCode::ReadExceptionStatus,
            8 => FunctionCode::Diagnostics,
            11 => FunctionCode::GetCommEventCounter,
            12 => FunctionCode::GetCommEventLog,
            15 => FunctionCode::WriteMultipleCoils,
            16 => FunctionCode::WriteMultipleRegisters,
            17 => FunctionCode::ReportServerId,
            20 => FunctionCode::ReadFileRecord,
            21 => FunctionCode::WriteFileRecord,
            22 => FunctionCode::MaskWriteRegister,
            23 => FunctionCode::ReadWriteMultipleRegisters,
            24 => FunctionCode::ReadFifoQueue,
            43 => FunctionCode::EncapsulatedInterfaceTransport,
            _ => FunctionCode::Custom(byte),
        };
        Ok(code)
    }

    /// Whether a byte is one the crate names.
    pub fn is_named_byte(byte: u8) -> (r: bool)
        ensures
            r == is_named_function_byte(byte),
    {
        byte == 1 || byte == 2 || byte == 3 || byte == 4 || byte == 5 || byte == 6 || byte == 7
            || byte == 8 || byte == 11 || byte == 12 || byte == 15 || byte == 16 || byte == 17
            || byte == 20 || byte == 21 || byte == 22 || byte == 23 || byte == 24 || byte == 43
    }

    /// Encode to its wire byte.
    ///
    /// A [`FunctionCode::Custom`] holding a code the crate names is rejected, so
    /// one wire byte keeps exactly one representation.
    pub fn encode(self) -> (r: Result<u8>)
        ensures
            r == self.spec_encode(),
    {
        let byte = match self {
            FunctionCode::ReadCoils => 1,
            FunctionCode::ReadDiscreteInputs => 2,
            FunctionCode::ReadHoldingRegisters => 3,
            FunctionCode::ReadInputRegisters => 4,
            FunctionCode::WriteSingleCoil => 5,
            FunctionCode::WriteSingleRegister => 6,
            FunctionCode::ReadExceptionStatus => 7,
            FunctionCode::Diagnostics => 8,
            FunctionCode::GetCommEventCounter => 11,
            FunctionCode::GetCommEventLog => 12,
            FunctionCode::WriteMultipleCoils => 15,
            FunctionCode::WriteMultipleRegisters => 16,
            FunctionCode::ReportServerId => 17,
            FunctionCode::ReadFileRecord => 20,
            FunctionCode::WriteFileRecord => 21,
            FunctionCode::MaskWriteRegister => 22,
            FunctionCode::ReadWriteMultipleRegisters => 23,
            FunctionCode::ReadFifoQueue => 24,
            FunctionCode::EncapsulatedInterfaceTransport => 43,
            FunctionCode::Custom(byte) => {
                if byte == 0 || byte >= 0x80 {
                    return Err(Error::InvalidFunctionCode(byte));
                }
                if Self::is_named_byte(byte) {
                    return Err(Error::ReservedCode(byte));
                }
                byte
            },
        };
        Ok(byte)
    }
}

/// Whatever decodes re-encodes to the byte it came from.
pub proof fn lemma_function_code_decode_encode(b: u8)
    requires
        FunctionCode::spec_decode(b) is Ok,
    ensures
        FunctionCode::spec_decode(b)->Ok_0.spec_encode() == Ok::<u8, Error>(b),
{
}

/// Whatever encodes decodes back to the code it came from, so no wire byte has
/// two representations.
pub proof fn lemma_function_code_encode_decode(c: FunctionCode)
    requires
        c.spec_encode() is Ok,
    ensures
        FunctionCode::spec_decode(c.spec_encode()->Ok_0) == Ok::<FunctionCode, Error>(c),
{
}

/// The function code table: each of the nineteen named functions is written
/// as its Modbus code and read back from it; every other code in 1–127 is
/// carried unchanged as [`FunctionCode::Custom`]; 0 and 128–255 are no
/// function at all.
pub proof fn lemma_function_code_table(b: u8)
    ensures
        FunctionCode::ReadCoils.spec_encode() == Ok::<u8, Error>(1u8),
        FunctionCode::ReadDiscreteInputs.spec_encode() == Ok::<u8, Error>(2u8),
        FunctionCode::ReadHoldingRegisters.spec_encode() == Ok::<u8, Error>(3u8),
        FunctionCode::ReadInputRegisters.spec_encode() == Ok::<u8, Error>(4u8),
        FunctionCode::WriteSingleCoil.spec_encode() == Ok::<u8, Error>(5u8),
        FunctionCode::WriteSingleRegister.spec_encode() == Ok::<u8, Error>(6u8),
        FunctionCode::ReadExceptionStatus.spec_encode() == Ok::<u8, Error>(7u8),
        FunctionCode::Diagnostics.spec_encode() == Ok::<u8, Error>(8u8),
        FunctionCode::GetCommEventCounter.spec_encode() == Ok::<u8, Error>(11u8),
        FunctionCode::GetCommEventLog.spec_encode() == Ok::<u8, Error>(12u8),
        FunctionCode::WriteMultipleCoils.spec_encode() == Ok::<u8, Error>(15u8),
        FunctionCode::WriteMultipleRegisters.spec_encode() == Ok::<u8, Error>(16u8),
        FunctionCode::ReportServerId.spec_encode() == Ok::<u8, Error>(17u8),
        FunctionCode::ReadFileRecord.spec_encode() == Ok::<u8, Error>(20u8),
        FunctionCode::WriteFileRecord.spec_encode() == Ok::<u8, Error>(21u8),
        FunctionCode::MaskWriteRegister.spec_encode() == Ok::<u8, Error>(22u8),
        FunctionCode::ReadWriteMultipleRegisters.spec_encode() == Ok::<u8, Error>(23u8),
        FunctionCode::ReadFifoQueue.spec_encode() == Ok::<u8, Error>(24u8),
        FunctionCode::EncapsulatedInterfaceTransport.spec_encode() == Ok::<u8, Error>(43u8),
        FunctionCode::spec_decode(1u8) == Ok::<FunctionCode, Error>(FunctionCode::ReadCoils),
        FunctionCode::spec_decode(2u8) == Ok::<FunctionCode, Error>(FunctionCode::ReadDiscreteInputs),
        FunctionCode::spec_decode(3u8) == Ok::<FunctionCode, Error>(FunctionCode::ReadHoldingRegisters),
        FunctionCode::spec_decode(4u8) == Ok::<FunctionCode, Error>(FunctionCode::ReadInputRegisters),
        FunctionCode::spec_decode(5u8) == Ok::<FunctionCode, Error>(FunctionCode::WriteSingleCoil),
        FunctionCode::spec_decode(6u8) == Ok::<FunctionCode, Error>(FunctionCode::WriteSingleRegister),
        FunctionCode::spec_decode(7u8) == Ok::<FunctionCode, Error>(FunctionCode::ReadExceptionStatus),
        FunctionCode::spec_decode(8u8) == Ok::<FunctionCode, Error>(FunctionCode::Diagnostics),
        FunctionCode::spec_decode(11u8) == Ok::<FunctionCode, Error>(FunctionCode::GetCommEventCounter),
        FunctionCode::spec_decode(12u8) == Ok::<FunctionCode, Error>(FunctionCode::GetCommEventLog),
        FunctionCode::spec_decode(15u8) == Ok::<FunctionCode, Error>(FunctionCode::WriteMultipleCoils),
        FunctionCode::spec_decode(16u8) == Ok::<FunctionCode, Error>(FunctionCode::WriteMultipleRegisters),
        FunctionCode::spec_decode(17u8) == Ok::<FunctionCode, Error>(FunctionCode::ReportServerId),
        FunctionCode::spec_decode(20u8) == Ok::<FunctionCode, Error>(FunctionCode::ReadFileRecord),
        FunctionCode::spec_decode(21u8) == Ok::<FunctionCode, Error>(FunctionCode::WriteFileRecord),
        FunctionCode::spec_decode(22u8) == Ok::<FunctionCode, Error>(FunctionCode::MaskWriteRegister),
        FunctionCode::spec_decode(23u8) == Ok::<FunctionCode, Error>(FunctionCode::ReadWriteMultipleRegisters),
        FunctionCode::spec_decode(24u8) == Ok::<FunctionCode, Error>(FunctionCode::ReadFifoQueue),
        FunctionCode::spec_decode(43u8) == Ok::<FunctionCode, Error>(FunctionCode::EncapsulatedInterfaceTransport),
        (b == 0 || b >= 128) ==> FunctionCode::spec_decode(b) == Err::<FunctionCode, Error>(
            Error::InvalidFunctionCode(b),
        ) && FunctionCode::Custom(b).spec_encode() == Err::<u8, Error>(Error::InvalidFunctionCode(b)),
        (1 <= b < 128 && !(b == 1 || b == 2 || b == 3 || b == 4 || b == 5 || b == 6 || b == 7 || b == 8 || b == 11 || b == 12 || b == 15 || b == 16 || b == 17 || b == 20 || b == 21 || b == 22 || b == 23 || b == 24 || b == 43)) ==> FunctionCode::spec_decode(b) == Ok::<FunctionCode, Error>(
            FunctionCode::Custom(b),
        ) && FunctionCode::Custom(b).spec_encode() == Ok::<u8, Error>(b),
        (b == 1 || b == 2 || b == 3 || b == 4 || b == 5 || b == 6 || b == 7 || b == 8 || b == 11 || b == 12 || b == 15 || b == 16 || b == 17 || b == 20 || b == 21 || b == 22 || b == 23 || b == 24 || b == 43) ==> FunctionCode::Custom(b).spec_encode() == Err::<u8, Error>(Error::ReservedCode(b)),
{
}

} // verus!
