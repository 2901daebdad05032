//! Request and response PDUs, and their mathematical content.
//!
//! Requests and responses are separate types because a PDU is not
//! self-describing: the same function code carries different layouts in each
//! direction, so the caller states the direction by choosing the type.

use vstd::prelude::*;

use crate::error::{Error, Result};
use crate::frame::diagnostics::DiagnosticSubFunction;
use crate::frame::exception::ExceptionResponse;
use crate::frame::file::{
    read_responses_view, writes_view, FileRecordRead, FileRecordReadResponse, FileRecordWrite,
    FileRecordWriteModel,
};
use crate::frame::function::FunctionCode;
use crate::frame::mei::{MeiRequest, MeiRequestModel, MeiResponse, MeiResponseModel};
use crate::frame::value::{Address, ExceptionStatus, Mask, Quantity, RegisterValue};

verus! {

/// A request PDU.
#[derive(Debug, Clone, PartialEq, Eq)]
pub enum RequestPdu {
    /// 1 — Read Coils.
    ReadCoils {
        /// Starting address.
        address: Address,
        /// Number of coils, 1–2000.
        quantity: Quantity,
    },
    /// 2 — Read Discrete Inputs.
    ReadDiscreteInputs {
        /// Starting address.
        address: Address,
        /// Number of inputs, 1–2000.
        quantity: Quantity,
    },
    /// 3 — Read Holding Registers.
    ReadHoldingRegisters {
        /// Starting address.
        address: Address,
        /// Number of registers, 1–125.
        quantity: Quantity,
    },
    /// 4 — Read Input Registers.
    ReadInputRegisters {
        /// Starting address.
        address: Address,
        /// Number of registers, 1–125.
        quantity: Quantity,
    },
    /// 5 — Write Single Coil.
    WriteSingleCoil {
        /// Output address.
        address: Address,
        /// Coil state; encodes as `0xFF00` or `0x0000` and nothing else.
        value: bool,
    },
    /// 6 — Write Single Register.
    WriteSingleRegister {
        /// Register address.
        address: Address,
        /// Value to write; any 16-bit value is permitted.
        value: RegisterValue,
    },
    /// 7 — Read Exception Status.
    ReadExceptionStatus,
    /// 8 — Diagnostics.
    Diagnostics {
        /// The sub-function to run.
        sub_function: DiagnosticSubFunction,
        /// Raw data words; their meaning is the sub-function's.
        data: Vec<u16>,
    },
    /// 11 — Get Comm Event Counter.
    GetCommEventCounter,
    /// 12 — Get Comm Event Log.
    GetCommEventLog,
    /// 15 — Write Multiple Coils.
    WriteMultipleCoils {
        /// Starting address.
        address: Address,
        /// Coil states, 1–1968 of them.
        coils: Vec<bool>,
    },
    /// 16 — Write Multiple Registers.
    WriteMultipleRegisters {
        /// Starting address.
        address: Address,
        /// Register values, 1–123 of them.
        registers: Vec<RegisterValue>,
    },
    /// 17 — Report Server ID.
    ReportServerId,
    /// 20 — Read File Record.
    ReadFileRecord {
        /// The sub-requests.
        records: Vec<FileRecordRead>,
    },
    /// 21 — Write File Record.
    WriteFileRecord {
        /// The records to write.
        records: Vec<FileRecordWrite>,
    },
    /// 22 — Mask Write Register.
    MaskWriteRegister {
        /// Register address.
        address: Address,
        /// AND mask.
        and_mask: Mask,
        /// OR mask.
        or_mask: Mask,
    },
    /// 23 — Read/Write Multiple Registers.
    ReadWriteMultipleRegisters {
        /// Starting address of the read.
        read_address: Address,
        /// Registers to read, 1–125.
        read_quantity: Quantity,
        /// Starting address of the write.
        write_address: Address,
        /// Registers to write, 1–121 of them.
        registers: Vec<RegisterValue>,
    },
    /// 24 — Read FIFO Queue.
    ReadFifoQueue {
        /// FIFO pointer address.
        address: Address,
    },
    /// 43 — Encapsulated Interface Transport.
    EncapsulatedInterfaceTransport(MeiRequest),
    /// Any function code the crate does not name, with an opaque body.
    Custom {
        /// The raw function code, 1–127 and not a named one.
        code: u8,
        /// Every PDU byte after the function code.
        data: Vec<u8>,
    },
}

/// A response PDU.
#[derive(Debug, Clone, PartialEq, Eq)]
pub enum ResponsePdu {
    /// 1 — Read Coils.
    ReadCoils {
        /// Coil states, a multiple of eight when decoded.
        coils: Vec<bool>,
    },
    /// 2 — Read Discrete Inputs.
    ReadDiscreteInputs {
        /// Input states, a multiple of eight when decoded.
        inputs: Vec<bool>,
    },
    /// 3 — Read Holding Registers.
    ReadHoldingRegisters {
        /// Register values.
        registers: Vec<RegisterValue>,
    },
    /// 4 — Read Input Registers.
    ReadInputRegisters {
        /// Register values.
        registers: Vec<RegisterValue>,
    },
    /// 5 — Write Single Coil; echoes the request.
    WriteSingleCoil {
        /// Output address.
        address: Address,
        /// Coil state.
        value: bool,
    },
    /// 6 — Write Single Register; echoes the request.
    WriteSingleRegister {
        /// Register address.
        address: Address,
        /// Value written.
        value: RegisterValue,
    },
    /// 7 — Read Exception Status.
    ReadExceptionStatus {
        /// The output status byte.
        status: ExceptionStatus,
    },
    /// 8 — Diagnostics.
    Diagnostics {
        /// The sub-function echoed.
        sub_function: DiagnosticSubFunction,
        /// Raw data words.
        data: Vec<u16>,
    },
    /// 11 — Get Comm Event Counter.
    GetCommEventCounter {
        /// Non-zero while a program function is still being processed.
        status: u16,
        /// Events the server has recorded.
        event_count: u16,
    },
    /// 12 — Get Comm Event Log.
    GetCommEventLog {
        /// Non-zero while a program function is still being processed.
        status: u16,
        /// Events the server has recorded.
        event_count: u16,
        /// Messages the server has processed.
        message_count: u16,
        /// The event bytes, most recent first.
        events: Vec<u8>,
    },
    /// 15 — Write Multiple Coils.
    WriteMultipleCoils {
        /// Starting address.
        address: Address,
        /// Coils written, 1–1968.
        quantity: Quantity,
    },
    /// 16 — Write Multiple Registers.
    WriteMultipleRegisters {
        /// Starting address.
        address: Address,
        /// Registers written, 1–123.
        quantity: Quantity,
    },
    /// 17 — Report Server ID; the body is opaque past its byte count.
    ReportServerId {
        /// The identification bytes.
        data: Vec<u8>,
    },
    /// 20 — Read File Record.
    ReadFileRecord {
        /// The sub-responses.
        records: Vec<FileRecordReadResponse>,
    },
    /// 21 — Write File Record; echoes the request.
    WriteFileRecord {
        /// The records written.
        records: Vec<FileRecordWrite>,
    },
    /// 22 — Mask Write Register; echoes the request.
    MaskWriteRegister {
        /// Register address.
        address: Address,
        /// AND mask.
        and_mask: Mask,
        /// OR mask.
        or_mask: Mask,
    },
    /// 23 — Read/Write Multiple Registers.
    ReadWriteMultipleRegisters {
        /// The registers read.
        registers: Vec<RegisterValue>,
    },
    /// 24 — Read FIFO Queue.
    ReadFifoQueue {
        /// The queued values, at most 31.
        values: Vec<RegisterValue>,
    },
    /// 43 — Encapsulated Interface Transport.
    EncapsulatedInterfaceTransport(MeiResponse),
    /// Any function code the crate does not name, with an opaque body.
    Custom {
        /// The raw function code, 1–127 and not a named one.
        code: u8,
        /// Every PDU byte after the function code.
        data: Vec<u8>,
    },
    /// An exception response.
    Exception(ExceptionResponse),
}

/// The mathematical content of a [`RequestPdu`].
pub enum RequestModel {
    ReadCoils { address: Address, quantity: Quantity },
    ReadDiscreteInputs { address: Address, quantity: Quantity },
    ReadHoldingRegisters { address: Address, quantity: Quantity },
    ReadInputRegisters { address: Address, quantity: Quantity },
    WriteSingleCoil { address: Address, value: bool },
    WriteSingleRegister { address: Address, value: RegisterValue },
    ReadExceptionStatus,
    Diagnostics { sub_function: DiagnosticSubFunction, data: Seq<u16> },
    GetCommEventCounter,
    GetCommEventLog,
    WriteMultipleCoils { address: Address, coils: Seq<bool> },
    WriteMultipleRegisters { address: Address, registers: Seq<RegisterValue> },
    ReportServerId,
    ReadFileRecord { records: Seq<FileRecordRead> },
    WriteFileRecord { records: Seq<FileRecordWriteModel> },
    MaskWriteRegister { address: Address, and_mask: Mask, or_mask: Mask },
    ReadWriteMultipleRegisters {
        read_address: Address,
        read_quantity: Quantity,
        write_address: Address,
        registers: Seq<RegisterValue>,
    },
    ReadFifoQueue { address: Address },
    EncapsulatedInterfaceTransport(MeiRequestModel),
    Custom { code: u8, data: Seq<u8> },
}

/// The mathematical content of a [`ResponsePdu`].
pub enum ResponseModel {
    ReadCoils { coils: Seq<bool> },
    ReadDiscreteInputs { inputs: Seq<bool> },
    ReadHoldingRegisters { registers: Seq<RegisterValue> },
    ReadInputRegisters { registers: Seq<RegisterValue> },
    WriteSingleCoil { address: Address, value: bool },
    WriteSingleRegister { address: Address, value: RegisterValue },
    ReadExceptionStatus { status: ExceptionStatus },
    Diagnostics { sub_function: DiagnosticSubFunction, data: Seq<u16> },
    GetCommEventCounter { status: u16, event_count: u16 },
    GetCommEventLog { status: u16, event_count: u16, message_count: u16, events: Seq<u8> },
    WriteMultipleCoils { address: Address, quantity: Quantity },
    WriteMultipleRegisters { address: Address, quantity: Quantity },
    ReportServerId { data: Seq<u8> },
    ReadFileRecord { records: Seq<Seq<RegisterValue>> },
    WriteFileRecord { records: Seq<FileRecordWriteModel> },
    MaskWriteRegister { address: Address, and_mask: Mask, or_mask: Mask },
    ReadWriteMultipleRegisters { registers: Seq<RegisterValue> },
    ReadFifoQueue { values: Seq<RegisterValue> },
    EncapsulatedInterfaceTransport(MeiResponseModel),
    Custom { code: u8, data: Seq<u8> },
    Exception(ExceptionResponse),
}

impl View for RequestPdu {
    type V = RequestModel;

    open spec fn view(&self) -> RequestModel {
        match self {
            RequestPdu::ReadCoils { address, quantity } => RequestModel::ReadCoils {
                address: *address,
                quantity: *quantity,
            },
            RequestPdu::ReadDiscreteInputs { address, quantity } => RequestModel::ReadDiscreteInputs {
                address: *address,
                quantity: *quantity,
            },
            RequestPdu::ReadHoldingRegisters { address, quantity } =>
                RequestModel::ReadHoldingRegisters { address: *address, quantity: *quantity },
            RequestPdu::ReadInputRegisters { address, quantity } => RequestModel::ReadInputRegisters {
                address: *address,
                quantity: *quantity,
            },
            RequestPdu::WriteSingleCoil { address, value } => RequestModel::WriteSingleCoil {
                address: *address,
                value: *value,
            },
            RequestPdu::WriteSingleRegister { address, value } => RequestModel::WriteSingleRegister {
                address: *address,
                value: *value,
            },
            RequestPdu::ReadExceptionStatus => RequestModel::ReadExceptionStatus,
            RequestPdu::Diagnostics { sub_function, data } => RequestModel::Diagnostics {
                sub_function: *sub_function,
                data: data@,
            },
            RequestPdu::GetCommEventCounter => RequestModel::GetCommEventCounter,
            RequestPdu::GetCommEventLog => RequestModel::GetCommEventLog,
            RequestPdu::WriteMultipleCoils { address, coils } => RequestModel::WriteMultipleCoils {
                address: *address,
                coils: coils@,
            },
            RequestPdu::WriteMultipleRegisters { address, registers } =>
                RequestModel::WriteMultipleRegisters { address: *address, registers: registers@ },
            RequestPdu::ReportServerId => RequestModel::ReportServerId,
            RequestPdu::ReadFileRecord { records } => RequestModel::ReadFileRecord {
                records: records@,
            },
            RequestPdu::WriteFileRecord { records } => RequestModel::WriteFileRecord {
                records: writes_view(records@),
            },
            RequestPdu::MaskWriteRegister { address, and_mask, or_mask } =>
                RequestModel::MaskWriteRegister {
                address: *address,
                and_mask: *and_mask,
                or_mask: *or_mask,
            },
            RequestPdu::ReadWriteMultipleRegisters {
                read_address,
                read_quantity,
                write_address,
                registers,
            } => RequestModel::ReadWriteMultipleRegisters {
                read_address: *read_address,
                read_quantity: *read_quantity,
                write_address: *write_address,
                registers: registers@,
            },
            RequestPdu::ReadFifoQueue { address } => RequestModel::ReadFifoQueue {
                address: *address,
            },
            RequestPdu::EncapsulatedInterfaceTransport(m) =>
                RequestModel::EncapsulatedInterfaceTransport(m@),
            RequestPdu::Custom { code, data } => RequestModel::Custom { code: *code, data: data@ },
        }
    }
}

impl View for ResponsePdu {
    type V = ResponseModel;

    open spec fn view(&self) -> ResponseModel {
        match self {
            ResponsePdu::ReadCoils { coils } => ResponseModel::ReadCoils { coils: coils@ },
            ResponsePdu::ReadDiscreteInputs { inputs } => ResponseModel::ReadDiscreteInputs {
                inputs: inputs@,
            },
            ResponsePdu::ReadHoldingRegisters { registers } => ResponseModel::ReadHoldingRegisters {
                registers: registers@,
            },
            ResponsePdu::ReadInputRegisters { registers } => ResponseModel::ReadInputRegisters {
                registers: registers@,
            },
            ResponsePdu::WriteSingleCoil { address, value } => ResponseModel::WriteSingleCoil {
                address: *address,
                value: *value,
            },
            ResponsePdu::WriteSingleRegister { address, value } =>
                ResponseModel::WriteSingleRegister { address: *address, value: *value },
            ResponsePdu::ReadExceptionStatus { status } => ResponseModel::ReadExceptionStatus {
                status: *status,
            },
            ResponsePdu::Diagnostics { sub_function, data } => ResponseModel::Diagnostics {
                sub_function: *sub_function,
                data: data@,
            },
            ResponsePdu::GetCommEventCounter { status, event_count } =>
                ResponseModel::GetCommEventCounter { status: *status, event_count: *event_count },
            ResponsePdu::GetCommEventLog { status, event_count, message_count, events } =>
                ResponseModel::GetCommEventLog {
                status: *status,
                event_count: *event_count,
                message_count: *message_count,
                events: events@,
            },
            ResponsePdu::WriteMultipleCoils { address, quantity } =>
                ResponseModel::WriteMultipleCoils { address: *address, quantity: *quantity },
            ResponsePdu::WriteMultipleRegisters { address, quantity } =>
                ResponseModel::WriteMultipleRegisters { address: *address, quantity: *quantity },
            ResponsePdu::ReportServerId { data } => ResponseModel::ReportServerId { data: data@ },
            ResponsePdu::ReadFileRecord { records } => ResponseModel::ReadFileRecord {
                records: read_responses_view(records@),
            },
            ResponsePdu::WriteFileRecord { records } => ResponseModel::WriteFileRecord {
                records: writes_view(records@),
            },
            ResponsePdu::MaskWriteRegister { address, and_mask, or_mask } =>
                ResponseModel::MaskWriteRegister {
                address: *address,
                and_mask: *and_mask,
                or_mask: *or_mask,
            },
            ResponsePdu::ReadWriteMultipleRegisters { registers } =>
                ResponseModel::ReadWriteMultipleRegisters { registers: registers@ },
            ResponsePdu::ReadFifoQueue { values } => ResponseModel::ReadFifoQueue {
                values: values@,
            },
            ResponsePdu::EncapsulatedInterfaceTransport(m) =>
                ResponseModel::EncapsulatedInterfaceTransport(m@),
            ResponsePdu::Custom { code, data } => ResponseModel::Custom { code: *code, data: data@ },
            ResponsePdu::Exception(e) => ResponseModel::Exception(*e),
        }
    }
}

/// A decode result with its PDU taken to its model.
pub open spec fn request_result(r: Result<RequestPdu>) -> Result<RequestModel> {
    match r {
        Ok(p) => Ok(p@),
        Err(e) => Err(e),
    }
}

/// A decode result with its PDU taken to its model.
pub open spec fn response_result(r: Result<ResponsePdu>) -> Result<ResponseModel> {
    match r {
        Ok(p) => Ok(p@),
        Err(e) => Err(e),
    }
}

/// The function code a request carries.
pub open spec fn request_function(m: RequestModel) -> FunctionCode {
    match m {
        RequestModel::ReadCoils { .. } => FunctionCode::ReadCoils,
        RequestModel::ReadDiscreteInputs { .. } => FunctionCode::ReadDiscreteInputs,
        RequestModel::ReadHoldingRegisters { .. } => FunctionCode::ReadHoldingRegisters,
        RequestModel::ReadInputRegisters { .. } => FunctionCode::ReadInputRegisters,
        RequestModel::WriteSingleCoil { .. } => FunctionCode::WriteSingleCoil,
        RequestModel::WriteSingleRegister { .. } => FunctionCode::WriteSingleRegister,
        RequestModel::ReadExceptionStatus => FunctionCode::ReadExceptionStatus,
        RequestModel::Diagnostics { .. } => FunctionCode::Diagnostics,
        RequestModel::GetCommEventCounter => FunctionCode::GetCommEventCounter,
        RequestModel::GetCommEventLog => FunctionCode::GetCommEventLog,
        RequestModel::WriteMultipleCoils { .. } => FunctionCode::WriteMultipleCoils,
        RequestModel::WriteMultipleRegisters { .. } => FunctionCode::WriteMultipleRegisters,
        RequestModel::ReportServerId => FunctionCode::ReportServerId,
        RequestModel::ReadFileRecord { .. } => FunctionCode::ReadFileRecord,
        RequestModel::WriteFileRecord { .. } => FunctionCode::WriteFileRecord,
        RequestModel::MaskWriteRegister { .. } => FunctionCode::MaskWriteRegister,
        RequestModel::ReadWriteMultipleRegisters { .. } => FunctionCode::ReadWriteMultipleRegisters,
        RequestModel::ReadFifoQueue { .. } => FunctionCode::ReadFifoQueue,
        RequestModel::EncapsulatedInterfaceTransport(_) => FunctionCode::EncapsulatedInterfaceTransport,
        RequestModel::Custom { code, .. } => FunctionCode::Custom(code),
    }
}

/// The function code a response answers; for an exception response, the
/// function it refuses.
pub open spec fn response_function(m: ResponseModel) -> FunctionCode {
    match m {
        ResponseModel::ReadCoils { .. } => FunctionCode::ReadCoils,
        ResponseModel::ReadDiscreteInputs { .. } => FunctionCode::ReadDiscreteInputs,
        ResponseModel::ReadHoldingRegisters { .. } => FunctionCode::ReadHoldingRegisters,
        ResponseModel::ReadInputRegisters { .. } => FunctionCode::ReadInputRegisters,
        ResponseModel::WriteSingleCoil { .. } => FunctionCode::WriteSingleCoil,
        ResponseModel::WriteSingleRegister { .. } => FunctionCode::WriteSingleRegister,
        ResponseModel::ReadExceptionStatus { .. } => FunctionCode::ReadExceptionStatus,
        ResponseModel::Diagnostics { .. } => FunctionCode::Diagnostics,
        ResponseModel::GetCommEventCounter { .. } => FunctionCode::GetCommEventCounter,
        ResponseModel::GetCommEventLog { .. } => FunctionCode::GetCommEventLog,
        ResponseModel::WriteMultipleCoils { .. } => FunctionCode::WriteMultipleCoils,
        ResponseModel::WriteMultipleRegisters { .. } => FunctionCode::WriteMultipleRegisters,
        ResponseModel::ReportServerId { .. } => FunctionCode::ReportServerId,
        ResponseModel::ReadFileRecord { .. } => FunctionCode::ReadFileRecord,
        ResponseModel::WriteFileRecord { .. } => FunctionCode::WriteFileRecord,
        ResponseModel::MaskWriteRegister { .. } => FunctionCode::MaskWriteRegister,
        ResponseModel::ReadWriteMultipleRegisters { .. } => FunctionCode::ReadWriteMultipleRegisters,
        ResponseModel::ReadFifoQueue { .. } => FunctionCode::ReadFifoQueue,
        ResponseModel::EncapsulatedInterfaceTransport(_) => FunctionCode::EncapsulatedInterfaceTransport,
        ResponseModel::Custom { code, .. } => FunctionCode::Custom(code),
        ResponseModel::Exception(e) => e.function,
    }
}

impl RequestPdu {
    /// The function code this request carries.
    pub fn function(&self) -> (r: FunctionCode)
        ensures
            r == request_function(self@),
    {
        match self {
            RequestPdu::ReadCoils { .. } => FunctionCode::ReadCoils,
            RequestPdu::ReadDiscreteInputs { .. } => FunctionCode::ReadDiscreteInputs,
            RequestPdu::ReadHoldingRegisters { .. } => FunctionCode::ReadHoldingRegisters,
            RequestPdu::ReadInputRegisters { .. } => FunctionCode::ReadInputRegisters,
            RequestPdu::WriteSingleCoil { .. } => FunctionCode::WriteSingleCoil,
            RequestPdu::WriteSingleRegister { .. } => FunctionCode::WriteSingleRegister,
            RequestPdu::ReadExceptionStatus => FunctionCode::ReadExceptionStatus,
            RequestPdu::Diagnostics { .. } => FunctionCode::Diagnostics,
            RequestPdu::GetCommEventCounter => FunctionCode::GetCommEventCounter,
            RequestPdu::GetCommEventLog => FunctionCode::GetCommEventLog,
            RequestPdu::WriteMultipleCoils { .. } => FunctionCode::WriteMultipleCoils,
            RequestPdu::WriteMultipleRegisters { .. } => FunctionCode::WriteMultipleRegisters,
            RequestPdu::ReportServerId => FunctionCode::ReportServerId,
            RequestPdu::ReadFileRecord { .. } => FunctionCode::ReadFileRecord,
            RequestPdu::WriteFileRecord { .. } => FunctionCode::WriteFileRecord,
            RequestPdu::MaskWriteRegister { .. } => FunctionCode::MaskWriteRegister,
            RequestPdu::ReadWriteMultipleRegisters { .. } => FunctionCode::ReadWriteMultipleRegisters,
            RequestPdu::ReadFifoQueue { .. } => FunctionCode::ReadFifoQueue,
            RequestPdu::EncapsulatedInterfaceTransport(_) => FunctionCode::EncapsulatedInterfaceTransport,
            RequestPdu::Custom { code, .. } => FunctionCode::Custom(*code),
        }
    }
}

impl ResponsePdu {
    /// The function code this response answers; for an exception response,
    /// the function it refuses.
    pub fn function(&self) -> (r: FunctionCode)
        ensures
            r == response_function(self@),
    {
        match self {
            ResponsePdu::ReadCoils { .. } => FunctionCode::ReadCoils,
            ResponsePdu::ReadDiscreteInputs { .. } => FunctionCode::ReadDiscreteInputs,
            ResponsePdu::ReadHoldingRegisters { .. } => FunctionCode::ReadHoldingRegisters,
            ResponsePdu::ReadInputRegisters { .. } => FunctionCode::ReadInputRegisters,
            ResponsePdu::WriteSingleCoil { .. } => FunctionCode::WriteSingleCoil,
            ResponsePdu::WriteSingleRegister { .. } => FunctionCode::WriteSingleRegister,
            ResponsePdu::ReadExceptionStatus { .. } => FunctionCode::ReadExceptionStatus,
            ResponsePdu::Diagnostics { .. } => FunctionCode::Diagnostics,
            ResponsePdu::GetCommEventCounter { .. } => FunctionCode::GetCommEventCounter,
            ResponsePdu::GetCommEventLog { .. } => FunctionCode::GetCommEventLog,
            ResponsePdu::WriteMultipleCoils { .. } => FunctionCode::WriteMultipleCoils,
            ResponsePdu::WriteMultipleRegisters { .. } => FunctionCode::WriteMultipleRegisters,
            ResponsePdu::ReportServerId { .. } => FunctionCode::ReportServerId,
            ResponsePdu::ReadFileRecord { .. } => FunctionCode::ReadFileRecord,
            ResponsePdu::WriteFileRecord { .. } => FunctionCode::WriteFileRecord,
            ResponsePdu::MaskWriteRegister { .. } => FunctionCode::MaskWriteRegister,
            ResponsePdu::ReadWriteMultipleRegisters { .. } => FunctionCode::ReadWriteMultipleRegisters,
            ResponsePdu::ReadFifoQueue { .. } => FunctionCode::ReadFifoQueue,
            ResponsePdu::EncapsulatedInterfaceTransport(_) => FunctionCode::EncapsulatedInterfaceTransport,
            ResponsePdu::Custom { code, .. } => FunctionCode::Custom(*code),
            ResponsePdu::Exception(e) => e.function,
        }
    }
}

} // verus!
