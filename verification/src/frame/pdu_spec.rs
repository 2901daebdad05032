//! The byte layouts of every request and response PDU, stated as functions
//! from models to bytes and from bytes to models.
//!
//! Decoding reports the first failure a reader meets going left to right: a
//! field that runs past the input is a truncation naming the offset the field
//! ends at, a field out of its function code's range is a range error, and
//! bytes after a complete layout are trailing bytes.

use vstd::prelude::*;

use crate::error::{Error, Result};
use crate::frame::diagnostics::DiagnosticSubFunction;
use crate::frame::exception::ExceptionResponse;
use crate::frame::file::{
    spec_decode_read_requests, spec_decode_read_responses, spec_decode_write_records,
    spec_encode_read_requests, spec_encode_read_responses, spec_encode_write_records,
};
use crate::frame::function::FunctionCode;
use crate::frame::mei::{
    spec_decode_mei_request, spec_decode_mei_response, spec_encode_mei_request,
    spec_encode_mei_response,
};
use crate::frame::pdu_model::{RequestModel, ResponseModel};
use crate::frame::value::{Address, ExceptionStatus, Mask, Quantity, RegisterValue};
use crate::frame::wire::{
    be16, pack_bits, packed_len, padding_clear, regs_bytes, regs_from, sat_u32, sat_usize, u16_at,
    unpack_bits, words_bytes, words_from,
};

verus! {

/// Maximum PDU size, inclusive of the function code.
pub const MAX_PDU_LEN: usize = 253;

/// Coil value meaning ON in a Write Single Coil PDU.
pub const COIL_ON: u16 = 0xFF00;

/// Coil value meaning OFF in a Write Single Coil PDU.
pub const COIL_OFF: u16 = 0x0000;

/// Largest quantity a bit read may ask for.
pub const MAX_READ_BITS: u16 = 2000;

/// Largest quantity a register read may ask for.
pub const MAX_READ_REGISTERS: u16 = 125;

/// Largest number of coils one request may write.
pub const MAX_WRITE_COILS: u16 = 1968;

/// Largest number of registers one request may write.
pub const MAX_WRITE_REGISTERS: u16 = 123;

/// Largest number of registers the write half of a read/write may carry.
pub const MAX_READ_WRITE_REGISTERS: u16 = 121;

/// Largest number of values a FIFO queue response may carry.
pub const MAX_FIFO_COUNT: u16 = 31;

/// A field's range error.
pub open spec fn range_error(field: &'static str, value: u32, min: u16, max: u16) -> Error {
    Error::OutOfRange { field, value, min: min as u32, max: max as u32 }
}

/// The truncation met when a field ending at `end` runs past `n` bytes.
pub open spec fn truncated(end: int, n: int) -> Error {
    Error::Truncated { expected: sat_usize(end), supplied: n as usize }
}

/// The surplus after a complete layout of `end` bytes.
pub open spec fn trailing(end: int, n: int) -> Error {
    Error::TrailingBytes { extra: (n - end) as usize }
}

/// A complete PDU, rejected if it exceeds the maximum.
pub open spec fn finish(b: Seq<u8>) -> Result<Seq<u8>> {
    if b.len() > MAX_PDU_LEN {
        Err(Error::PduTooLarge { len: b.len() as usize, max: MAX_PDU_LEN })
    } else {
        Ok(b)
    }
}

/// Prepend a function code byte to a body.
pub open spec fn with_code(code: u8, body: Result<Seq<u8>>) -> Result<Seq<u8>> {
    match body {
        Err(e) => Err(e),
        Ok(b) => Ok(seq![code] + b),
    }
}

/// A read request: address and quantity, the quantity within `1..=max`.
pub open spec fn read_request_bytes(code: u8, address: Address, quantity: Quantity, max: u16) -> Result<Seq<u8>> {
    if quantity.0 < 1 || quantity.0 > max {
        Err(range_error("quantity", quantity.0 as u32, 1, max))
    } else {
        Ok(seq![code] + be16(address.0) + be16(quantity.0))
    }
}

/// A counted run: the count byte then the data, the count fitting one byte.
pub open spec fn counted_bytes(code: u8, data: Seq<u8>) -> Result<Seq<u8>> {
    if data.len() > 255 {
        Err(Error::PduTooLarge { len: sat_usize(data.len() + 2int), max: MAX_PDU_LEN })
    } else {
        Ok(seq![code, data.len() as u8] + data)
    }
}

/// The wire value of a coil state.
pub open spec fn coil_word(value: bool) -> u16 {
    if value {
        COIL_ON
    } else {
        COIL_OFF
    }
}

/// A Diagnostics body: sub-function then data words.
pub open spec fn diagnostics_bytes(sub_function: DiagnosticSubFunction, data: Seq<u16>) -> Result<Seq<u8>> {
    match sub_function.spec_encode() {
        Err(e) => Err(e),
        Ok(s) => Ok(seq![8u8] + be16(s) + words_bytes(data)),
    }
}

/// A custom function code and its opaque body.
pub open spec fn custom_bytes(code: u8, data: Seq<u8>) -> Result<Seq<u8>> {
    match FunctionCode::Custom(code).spec_encode() {
        Err(e) => Err(e),
        Ok(c) => Ok(seq![c] + data),
    }
}

/// The bytes of a request, before the size check.
pub open spec fn spec_request_body(p: RequestModel) -> Result<Seq<u8>> {
    match p {
        RequestModel::ReadCoils { address, quantity } => read_request_bytes(1, address, quantity, MAX_READ_BITS),
        RequestModel::ReadDiscreteInputs { address, quantity } => read_request_bytes(2, address, quantity, MAX_READ_BITS),
        RequestModel::ReadHoldingRegisters { address, quantity } => read_request_bytes(3, address, quantity, MAX_READ_REGISTERS),
        RequestModel::ReadInputRegisters { address, quantity } => read_request_bytes(4, address, quantity, MAX_READ_REGISTERS),
        RequestModel::WriteSingleCoil { address, value } => Ok(seq![5u8] + be16(address.0) + be16(coil_word(value))),
        RequestModel::WriteSingleRegister { address, value } => Ok(seq![6u8] + be16(address.0) + be16(value.0)),
        RequestModel::ReadExceptionStatus => Ok(seq![7u8]),
        RequestModel::Diagnostics { sub_function, data } => diagnostics_bytes(sub_function, data),
        RequestModel::GetCommEventCounter => Ok(seq![11u8]),
        RequestModel::GetCommEventLog => Ok(seq![12u8]),
        RequestModel::WriteMultipleCoils { address, coils } => if coils.len() < 1 || coils.len() > MAX_WRITE_COILS {
            Err(range_error("quantity", sat_u32(coils.len() as int), 1, MAX_WRITE_COILS))
        } else {
            Ok(seq![15u8] + be16(address.0) + be16(coils.len() as u16) + seq![packed_len(coils.len() as int) as u8] + pack_bits(coils))
        },
        RequestModel::WriteMultipleRegisters { address, registers } => if registers.len() < 1 || registers.len() > MAX_WRITE_REGISTERS {
            Err(range_error("quantity", sat_u32(registers.len() as int), 1, MAX_WRITE_REGISTERS))
        } else {
            Ok(seq![16u8] + be16(address.0) + be16(registers.len() as u16) + seq![(2 * registers.len()) as u8] + regs_bytes(registers))
        },
        RequestModel::ReportServerId => Ok(seq![17u8]),
        RequestModel::ReadFileRecord { records } => with_code(20, spec_encode_read_requests(records)),
        RequestModel::WriteFileRecord { records } => with_code(21, spec_encode_write_records(records)),
        RequestModel::MaskWriteRegister { address, and_mask, or_mask } => Ok(seq![22u8] + be16(address.0) + be16(and_mask.0) + be16(or_mask.0)),
        RequestModel::ReadWriteMultipleRegisters { read_address, read_quantity, write_address, registers } =>
            if read_quantity.0 < 1 || read_quantity.0 > MAX_READ_REGISTERS {
                Err(range_error("read quantity", read_quantity.0 as u32, 1, MAX_READ_REGISTERS))
            } else if registers.len() < 1 || registers.len() > MAX_READ_WRITE_REGISTERS {
                Err(range_error("write quantity", sat_u32(registers.len() as int), 1, MAX_READ_WRITE_REGISTERS))
            } else {
                Ok(seq![23u8] + be16(read_address.0) + be16(read_quantity.0) + be16(write_address.0) + be16(registers.len() as u16) + seq![(2 * registers.len()) as u8] + regs_bytes(registers))
            },
        RequestModel::ReadFifoQueue { address } => Ok(seq![24u8] + be16(address.0)),
        RequestModel::EncapsulatedInterfaceTransport(m) => Ok(seq![43u8] + spec_encode_mei_request(m)),
        RequestModel::Custom { code, data } => custom_bytes(code, data),
    }
}

/// What encoding a request yields.
pub open spec fn spec_encode_request(p: RequestModel) -> Result<Seq<u8>> {
    match spec_request_body(p) {
        Err(e) => Err(e),
        Ok(b) => finish(b),
    }
}

/// The bytes of a response, before the size check.
pub open spec fn spec_response_body(p: ResponseModel) -> Result<Seq<u8>> {
    match p {
        ResponseModel::ReadCoils { coils } => counted_bytes(1, pack_bits(coils)),
        ResponseModel::ReadDiscreteInputs { inputs } => counted_bytes(2, pack_bits(inputs)),
        ResponseModel::ReadHoldingRegisters { registers } => counted_bytes(3, regs_bytes(registers)),
        ResponseModel::ReadInputRegisters { registers } => counted_bytes(4, regs_bytes(registers)),
        ResponseModel::WriteSingleCoil { address, value } => Ok(seq![5u8] + be16(address.0) + be16(coil_word(value))),
        ResponseModel::WriteSingleRegister { address, value } => Ok(seq![6u8] + be16(address.0) + be16(value.0)),
        ResponseModel::ReadExceptionStatus { status } => Ok(seq![7u8, status.0]),
        ResponseModel::Diagnostics { sub_function, data } => diagnostics_bytes(sub_function, data),
        ResponseModel::GetCommEventCounter { status, event_count } => Ok(seq![11u8] + be16(status) + be16(event_count)),
        ResponseModel::GetCommEventLog { status, event_count, message_count, events } => if events.len() + 6 > 255 {
            Err(Error::PduTooLarge { len: sat_usize(events.len() + 8int), max: MAX_PDU_LEN })
        } else {
            Ok(seq![12u8, (events.len() + 6) as u8] + be16(status) + be16(event_count) + be16(message_count) + events)
        },
        ResponseModel::WriteMultipleCoils { address, quantity } => read_request_bytes(15, address, quantity, MAX_WRITE_COILS),
        ResponseModel::WriteMultipleRegisters { address, quantity } => read_request_bytes(16, address, quantity, MAX_WRITE_REGISTERS),
        ResponseModel::ReportServerId { data } => counted_bytes(17, data),
        ResponseModel::ReadFileRecord { records } => with_code(20, spec_encode_read_responses(records)),
        ResponseModel::WriteFileRecord { records } => with_code(21, spec_encode_write_records(records)),
        ResponseModel::MaskWriteRegister { address, and_mask, or_mask } => Ok(seq![22u8] + be16(address.0) + be16(and_mask.0) + be16(or_mask.0)),
        ResponseModel::ReadWriteMultipleRegisters { registers } => counted_bytes(23, regs_bytes(registers)),
        ResponseModel::ReadFifoQueue { values } => if values.len() > MAX_FIFO_COUNT {
            Err(range_error("FIFO count", sat_u32(values.len() as int), 0, MAX_FIFO_COUNT))
        } else {
            Ok(seq![24u8] + be16((2 + 2 * values.len()) as u16) + be16(values.len() as u16) + regs_bytes(values))
        },
        ResponseModel::EncapsulatedInterfaceTransport(m) => with_code(43, spec_encode_mei_response(m)),
        ResponseModel::Custom { code, data } => custom_bytes(code, data),
        ResponseModel::Exception(e) => e.spec_encode(),
    }
}

/// What encoding a response yields.
pub open spec fn spec_encode_response(p: ResponseModel) -> Result<Seq<u8>> {
    match spec_response_body(p) {
        Err(e) => Err(e),
        Ok(b) => finish(b),
    }
}

// ---------------------------------------------------------------------------
// Decoding.

/// A fixed layout of `end` bytes whose fields all decode: truncation at
/// `end`, surplus past it. Used once the fields' own checks have passed.
pub open spec fn exact(p: Seq<u8>, end: int) -> Option<Error> {
    if p.len() < end {
        Some(truncated(end, p.len() as int))
    } else if p.len() > end {
        Some(trailing(end, p.len() as int))
    } else {
        None
    }
}

/// Address and quantity at offsets 1 and 3, the quantity in `1..=max`.
pub open spec fn decode_address_quantity(p: Seq<u8>, field: &'static str, max: u16) -> Result<(Address, Quantity)> {
    let n = p.len() as int;
    if n < 3 {
        Err(truncated(3, n))
    } else if n < 5 {
        Err(truncated(5, n))
    } else if u16_at(p, 3) < 1 || u16_at(p, 3) > max {
        Err(range_error(field, u16_at(p, 3) as u32, 1, max))
    } else if n > 5 {
        Err(trailing(5, n))
    } else {
        Ok((Address(u16_at(p, 1)), Quantity(u16_at(p, 3))))
    }
}

/// Address and coil state at offsets 1 and 3.
pub open spec fn decode_single_coil(p: Seq<u8>) -> Result<(Address, bool)> {
    let n = p.len() as int;
    if n < 3 {
        Err(truncated(3, n))
    } else if n < 5 {
        Err(truncated(5, n))
    } else if u16_at(p, 3) != COIL_ON && u16_at(p, 3) != COIL_OFF {
        Err(Error::IllegalValue { field: "coil value", value: u16_at(p, 3) })
    } else if n > 5 {
        Err(trailing(5, n))
    } else {
        Ok((Address(u16_at(p, 1)), u16_at(p, 3) == COIL_ON))
    }
}

/// Sub-function then data words.
pub open spec fn decode_diagnostics(p: Seq<u8>) -> Result<(DiagnosticSubFunction, Seq<u16>)> {
    let n = p.len() as int;
    if n < 3 {
        Err(truncated(3, n))
    } else if (n - 3) % 2 != 0 {
        Err(truncated(n + 1, n))
    } else {
        Ok((DiagnosticSubFunction::spec_decode(u16_at(p, 1)), words_from(p.skip(3))))
    }
}

/// A count byte at offset 1 and exactly that many data bytes after it.
pub open spec fn decode_counted(p: Seq<u8>) -> Result<Seq<u8>> {
    let n = p.len() as int;
    if n < 2 {
        Err(truncated(2, n))
    } else if n - 2 != p[1] {
        Err(Error::ByteCountMismatch { expected: p[1] as usize, actual: (n - 2) as usize })
    } else {
        Ok(p.skip(2))
    }
}

/// A counted run of registers: the count must be even.
pub open spec fn decode_counted_registers(p: Seq<u8>) -> Result<Seq<RegisterValue>> {
    match decode_counted(p) {
        Err(e) => Err(e),
        Ok(data) => if data.len() % 2 != 0 {
            Err(Error::IllegalValue { field: "byte count", value: data.len() as u16 })
        } else {
            Ok(regs_from(data))
        },
    }
}

/// Write Multiple Coils request body.
pub open spec fn decode_write_coils(p: Seq<u8>) -> Result<RequestModel> {
    let n = p.len() as int;
    if n < 3 {
        Err(truncated(3, n))
    } else if n < 5 {
        Err(truncated(5, n))
    } else {
        let q = u16_at(p, 3) as int;
        if q < 1 || q > MAX_WRITE_COILS {
            Err(range_error("quantity", q as u32, 1, MAX_WRITE_COILS))
        } else if n < 6 {
            Err(truncated(6, n))
        } else if p[5] != packed_len(q) {
            Err(Error::ByteCountMismatch { expected: packed_len(q) as usize, actual: p[5] as usize })
        } else if n < 6 + p[5] {
            Err(truncated(6 + p[5], n))
        } else if !padding_clear(p.subrange(6, 6 + p[5] as int), q) {
            Err(Error::IllegalValue { field: "coil padding", value: p[5 + p[5] as int] as u16 })
        } else if n > 6 + p[5] {
            Err(trailing(6 + p[5], n))
        } else {
            Ok(RequestModel::WriteMultipleCoils {
                address: Address(u16_at(p, 1)),
                coils: unpack_bits(p.subrange(6, 6 + p[5] as int)).take(q),
            })
        }
    }
}

/// Write Multiple Registers request body.
pub open spec fn decode_write_registers(p: Seq<u8>) -> Result<RequestModel> {
    let n = p.len() as int;
    if n < 3 {
        Err(truncated(3, n))
    } else if n < 5 {
        Err(truncated(5, n))
    } else {
        let q = u16_at(p, 3) as int;
        if q < 1 || q > MAX_WRITE_REGISTERS {
            Err(range_error("quantity", q as u32, 1, MAX_WRITE_REGISTERS))
        } else if n < 6 {
            Err(truncated(6, n))
        } else if p[5] != 2 * q {
            Err(Error::ByteCountMismatch { expected: (2 * q) as usize, actual: p[5] as usize })
        } else if n < 6 + p[5] {
            Err(truncated(6 + p[5], n))
        } else if n > 6 + p[5] {
            Err(trailing(6 + p[5], n))
        } else {
            Ok(RequestModel::WriteMultipleRegisters {
                address: Address(u16_at(p, 1)),
                registers: regs_from(p.subrange(6, 6 + p[5] as int)),
            })
        }
    }
}

/// Read/Write Multiple Registers request body.
pub open spec fn decode_read_write(p: Seq<u8>) -> Result<RequestModel> {
    let n = p.len() as int;
    if n < 3 {
        Err(truncated(3, n))
    } else if n < 5 {
        Err(truncated(5, n))
    } else if u16_at(p, 3) < 1 || u16_at(p, 3) > MAX_READ_REGISTERS {
        Err(range_error("read quantity", u16_at(p, 3) as u32, 1, MAX_READ_REGISTERS))
    } else if n < 7 {
        Err(truncated(7, n))
    } else if n < 9 {
        Err(truncated(9, n))
    } else {
        let w = u16_at(p, 7) as int;
        if w < 1 || w > MAX_READ_WRITE_REGISTERS {
            Err(range_error("write quantity", w as u32, 1, MAX_READ_WRITE_REGISTERS))
        } else if n < 10 {
            Err(truncated(10, n))
        } else if p[9] != 2 * w {
            Err(Error::ByteCountMismatch { expected: (2 * w) as usize, actual: p[9] as usize })
        } else if n < 10 + p[9] {
            Err(truncated(10 + p[9], n))
        } else if n > 10 + p[9] {
            Err(trailing(10 + p[9], n))
        } else {
            Ok(RequestModel::ReadWriteMultipleRegisters {
                read_address: Address(u16_at(p, 1)),
                read_quantity: Quantity(u16_at(p, 3)),
                write_address: Address(u16_at(p, 5)),
                registers: regs_from(p.subrange(10, 10 + p[9] as int)),
            })
        }
    }
}

/// What decoding a request PDU whose function code decoded to `fc` yields.
pub open spec fn spec_decode_request_body(fc: FunctionCode, p: Seq<u8>) -> Result<RequestModel> {
    let n = p.len() as int;
    match fc {
        FunctionCode::ReadCoils => match decode_address_quantity(p, "quantity", MAX_READ_BITS) {
            Err(e) => Err(e),
            Ok((address, quantity)) => Ok(RequestModel::ReadCoils { address, quantity }),
        },
        FunctionCode::ReadDiscreteInputs => match decode_address_quantity(p, "quantity", MAX_READ_BITS) {
            Err(e) => Err(e),
            Ok((address, quantity)) => Ok(RequestModel::ReadDiscreteInputs { address, quantity }),
        },
        FunctionCode::ReadHoldingRegisters => match decode_address_quantity(p, "quantity", MAX_READ_REGISTERS) {
            Err(e) => Err(e),
            Ok((address, quantity)) => Ok(RequestModel::ReadHoldingRegisters { address, quantity }),
        },
        FunctionCode::ReadInputRegisters => match decode_address_quantity(p, "quantity", MAX_READ_REGISTERS) {
            Err(e) => Err(e),
            Ok((address, quantity)) => Ok(RequestModel::ReadInputRegisters { address, quantity }),
        },
        FunctionCode::WriteSingleCoil => match decode_single_coil(p) {
            Err(e) => Err(e),
            Ok((address, value)) => Ok(RequestModel::WriteSingleCoil { address, value }),
        },
        FunctionCode::WriteSingleRegister => if n < 3 {
            Err(truncated(3, n))
        } else {
            match exact(p, 5) {
                Some(e) => Err(e),
                None => Ok(RequestModel::WriteSingleRegister { address: Address(u16_at(p, 1)), value: RegisterValue(u16_at(p, 3)) }),
            }
        },
        FunctionCode::ReadExceptionStatus => if n > 1 { Err(trailing(1, n)) } else { Ok(RequestModel::ReadExceptionStatus) },
        FunctionCode::Diagnostics => match decode_diagnostics(p) {
            Err(e) => Err(e),
            Ok((sub_function, data)) => Ok(RequestModel::Diagnostics { sub_function, data }),
        },
        FunctionCode::GetCommEventCounter => if n > 1 { Err(trailing(1, n)) } else { Ok(RequestModel::GetCommEventCounter) },
        FunctionCode::GetCommEventLog => if n > 1 { Err(trailing(1, n)) } else { Ok(RequestModel::GetCommEventLog) },
        FunctionCode::WriteMultipleCoils => decode_write_coils(p),
        FunctionCode::WriteMultipleRegisters => decode_write_registers(p),
        FunctionCode::ReportServerId => if n > 1 { Err(trailing(1, n)) } else { Ok(RequestModel::ReportServerId) },
        FunctionCode::ReadFileRecord => match spec_decode_read_requests(p) {
            Err(e) => Err(e),
            Ok(records) => if n > 2 + p[1] { Err(trailing(2 + p[1], n)) } else { Ok(RequestModel::ReadFileRecord { records }) },
        },
        FunctionCode::WriteFileRecord => match spec_decode_write_records(p) {
            Err(e) => Err(e),
            Ok(records) => if n > 2 + p[1] { Err(trailing(2 + p[1], n)) } else { Ok(RequestModel::WriteFileRecord { records }) },
        },
        FunctionCode::MaskWriteRegister => if n < 3 {
            Err(truncated(3, n))
        } else if n < 5 {
            Err(truncated(5, n))
        } else {
            match exact(p, 7) {
                Some(e) => Err(e),
                None => Ok(RequestModel::MaskWriteRegister {
                    address: Address(u16_at(p, 1)),
                    and_mask: Mask(u16_at(p, 3)),
                    or_mask: Mask(u16_at(p, 5)),
                }),
            }
        },
        FunctionCode::ReadWriteMultipleRegisters => decode_read_write(p),
        FunctionCode::ReadFifoQueue => match exact(p, 3) {
            Some(e) => Err(e),
            None => Ok(RequestModel::ReadFifoQueue { address: Address(u16_at(p, 1)) }),
        },
        FunctionCode::EncapsulatedInterfaceTransport => match spec_decode_mei_request(p) {
            Err(e) => Err(e),
            Ok(m) => Ok(RequestModel::EncapsulatedInterfaceTransport(m)),
        },
        FunctionCode::Custom(code) => Ok(RequestModel::Custom { code, data: p.skip(1) }),
    }
}

/// What decoding a request PDU yields.
pub open spec fn spec_decode_request(p: Seq<u8>) -> Result<RequestModel> {
    if p.len() > MAX_PDU_LEN {
        Err(Error::PduTooLarge { len: p.len() as usize, max: MAX_PDU_LEN })
    } else if p.len() < 1 {
        Err(truncated(1, 0))
    } else {
        match FunctionCode::spec_decode(p[0]) {
            Err(e) => Err(e),
            Ok(fc) => spec_decode_request_body(fc, p),
        }
    }
}

/// Get Comm Event Log response body.
pub open spec fn decode_event_log(p: Seq<u8>) -> Result<ResponseModel> {
    match decode_counted(p) {
        Err(e) => Err(e),
        Ok(data) => if data.len() < 6 {
            Err(Error::IllegalValue { field: "byte count", value: data.len() as u16 })
        } else {
            Ok(ResponseModel::GetCommEventLog {
                status: u16_at(p, 2),
                event_count: u16_at(p, 4),
                message_count: u16_at(p, 6),
                events: p.skip(8),
            })
        },
    }
}

/// Read FIFO Queue response body.
pub open spec fn decode_fifo(p: Seq<u8>) -> Result<ResponseModel> {
    let n = p.len() as int;
    if n < 3 {
        Err(truncated(3, n))
    } else if n < 5 {
        Err(truncated(5, n))
    } else {
        let count = u16_at(p, 3) as int;
        if count > MAX_FIFO_COUNT {
            Err(range_error("FIFO count", count as u32, 0, MAX_FIFO_COUNT))
        } else if u16_at(p, 1) != 2 + 2 * count {
            Err(Error::ByteCountMismatch { expected: (2 + 2 * count) as usize, actual: u16_at(p, 1) as usize })
        } else if n < 5 + 2 * count {
            Err(truncated(5 + 2 * count, n))
        } else if n > 5 + 2 * count {
            Err(trailing(5 + 2 * count, n))
        } else {
            Ok(ResponseModel::ReadFifoQueue { values: regs_from(p.subrange(5, 5 + 2 * count)) })
        }
    }
}

/// What decoding a response PDU whose function code decoded to `fc` yields.
pub open spec fn spec_decode_response_body(fc: FunctionCode, p: Seq<u8>) -> Result<ResponseModel> {
    let n = p.len() as int;
    match fc {
        FunctionCode::ReadCoils => match decode_counted(p) {
            Err(e) => Err(e),
            Ok(data) => Ok(ResponseModel::ReadCoils { coils: unpack_bits(data) }),
        },
        FunctionCode::ReadDiscreteInputs => match decode_counted(p) {
            Err(e) => Err(e),
            Ok(data) => Ok(ResponseModel::ReadDiscreteInputs { inputs: unpack_bits(data) }),
        },
        FunctionCode::ReadHoldingRegisters => match decode_counted_registers(p) {
            Err(e) => Err(e),
            Ok(registers) => Ok(ResponseModel::ReadHoldingRegisters { registers }),
        },
        FunctionCode::ReadInputRegisters => match decode_counted_registers(p) {
            Err(e) => Err(e),
            Ok(registers) => Ok(ResponseModel::ReadInputRegisters { registers }),
        },
        FunctionCode::WriteSingleCoil => match decode_single_coil(p) {
            Err(e) => Err(e),
            Ok((address, value)) => Ok(ResponseModel::WriteSingleCoil { address, value }),
        },
        FunctionCode::WriteSingleRegister => if n < 3 {
            Err(truncated(3, n))
        } else {
            match exact(p, 5) {
                Some(e) => Err(e),
                None => Ok(ResponseModel::WriteSingleRegister { address: Address(u16_at(p, 1)), value: RegisterValue(u16_at(p, 3)) }),
            }
        },
        FunctionCode::ReadExceptionStatus => match exact(p, 2) {
            Some(e) => Err(e),
            None => Ok(ResponseModel::ReadExceptionStatus { status: ExceptionStatus(p[1]) }),
        },
        FunctionCode::Diagnostics => match decode_diagnostics(p) {
            Err(e) => Err(e),
            Ok((sub_function, data)) => Ok(ResponseModel::Diagnostics { sub_function, data }),
        },
        FunctionCode::GetCommEventCounter => if n < 3 {
            Err(truncated(3, n))
        } else {
            match exact(p, 5) {
                Some(e) => Err(e),
                None => Ok(ResponseModel::GetCommEventCounter { status: u16_at(p, 1), event_count: u16_at(p, 3) }),
            }
        },
        FunctionCode::GetCommEventLog => decode_event_log(p),
        FunctionCode::WriteMultipleCoils => match decode_address_quantity(p, "quantity", MAX_WRITE_COILS) {
            Err(e) => Err(e),
            Ok((address, quantity)) => Ok(ResponseModel::WriteMultipleCoils { address, quantity }),
        },
        FunctionCode::WriteMultipleRegisters => match decode_address_quantity(p, "quantity", MAX_WRITE_REGISTERS) {
            Err(e) => Err(e),
            Ok((address, quantity)) => Ok(ResponseModel::WriteMultipleRegisters { address, quantity }),
        },
        FunctionCode::ReportServerId => match decode_counted(p) {
            Err(e) => Err(e),
            Ok(data) => Ok(ResponseModel::ReportServerId { data }),
        },
        FunctionCode::ReadFileRecord => match spec_decode_read_responses(p) {
            Err(e) => Err(e),
            Ok(records) => if n > 2 + p[1] { Err(trailing(2 + p[1], n)) } else { Ok(ResponseModel::ReadFileRecord { records }) },
        },
        FunctionCode::WriteFileRecord => match spec_decode_write_records(p) {
            Err(e) => Err(e),
            Ok(records) => if n > 2 + p[1] { Err(trailing(2 + p[1], n)) } else { Ok(ResponseModel::WriteFileRecord { records }) },
        },
        FunctionCode::MaskWriteRegister => if n < 3 {
            Err(truncated(3, n))
        } else if n < 5 {
            Err(truncated(5, n))
        } else {
            match exact(p, 7) {
                Some(e) => Err(e),
                None => Ok(ResponseModel::MaskWriteRegister {
                    address: Address(u16_at(p, 1)),
                    and_mask: Mask(u16_at(p, 3)),
                    or_mask: Mask(u16_at(p, 5)),
                }),
            }
        },
        FunctionCode::ReadWriteMultipleRegisters => match decode_counted_registers(p) {
            Err(e) => Err(e),
            Ok(registers) => Ok(ResponseModel::ReadWriteMultipleRegisters { registers }),
        },
        FunctionCode::ReadFifoQueue => decode_fifo(p),
        FunctionCode::EncapsulatedInterfaceTransport => match spec_decode_mei_response(p) {
            Err(e) => Err(e),
            Ok(m) => Ok(ResponseModel::EncapsulatedInterfaceTransport(m)),
        },
        FunctionCode::Custom(code) => Ok(ResponseModel::Custom { code, data: p.skip(1) }),
    }
}

/// What decoding a response PDU yields: a first byte with its high bit set is
/// an exception response.
pub open spec fn spec_decode_response(p: Seq<u8>) -> Result<ResponseModel> {
    if p.len() > MAX_PDU_LEN {
        Err(Error::PduTooLarge { len: p.len() as usize, max: MAX_PDU_LEN })
    } else if p.len() >= 1 && p[0] >= 0x80 {
        match ExceptionResponse::spec_decode(p) {
            Err(e) => Err(e),
            Ok(x) => Ok(ResponseModel::Exception(x)),
        }
    } else if p.len() < 1 {
        Err(truncated(1, 0))
    } else {
        match FunctionCode::spec_decode(p[0]) {
            Err(e) => Err(e),
            Ok(fc) => spec_decode_response_body(fc, p),
        }
    }
}

} // verus!
