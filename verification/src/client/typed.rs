//! What the typed request methods make of a response: the value the method
//! returns, or the error a response of the wrong kind is.

use vstd::prelude::*;

use crate::client::framing::ClientFraming;
use crate::error::{Error, Result};
use crate::frame::exception::ExceptionResponse;
use crate::frame::file::{read_responses_view, FileRecordReadResponse};
use crate::frame::function::FunctionCode;
use crate::frame::mei::MeiResponse;
use crate::frame::pdu_model::{response_function, ResponseModel, ResponsePdu};
use crate::frame::value::{ExceptionStatus, Quantity, RegisterValue, UnitId};

verus! {

/// The two counters of a Get Comm Event Counter response.
#[derive(Debug, Clone, Copy, PartialEq, Eq, Structural)]
pub struct CommEventCounter {
    /// Non-zero while the server is still processing a program function.
    pub status: u16,
    /// Events the server has recorded.
    pub event_count: u16,
}

/// A Get Comm Event Log response.
#[derive(Debug, Clone, PartialEq, Eq)]
pub struct CommEventLog {
    /// Non-zero while the server is still processing a program function.
    pub status: u16,
    /// Events the server has recorded.
    pub event_count: u16,
    /// Messages the server has processed.
    pub message_count: u16,
    /// The event bytes themselves, most recent first, carried raw.
    pub events: Vec<u8>,
}

/// The failure for a response whose body is not its function code's.
pub open spec fn spec_mismatch(expected: FunctionCode, actual: ResponseModel) -> Error {
    Error::UnexpectedFunction { expected, actual: response_function(actual) }
}

/// The failure for a response whose body is not its function code's. The
/// code was matched when the response arrived, so this answers a response
/// that should not exist; it exists because a panic on peer input is not an
/// option.
pub fn mismatch(expected: FunctionCode, actual: &ResponsePdu) -> (e: Error)
    ensures
        e == spec_mismatch(expected, actual@),
{
    Error::UnexpectedFunction { expected, actual: actual.function() }
}

/// A request whose answer the caller needs cannot be broadcast: no server
/// answers a broadcast. Refused before anything reaches the wire.
pub fn check_answerable<F: ClientFraming>(unit: UnitId) -> (r: Result<()>)
    ensures
        r == (if F::spec_is_broadcast(unit) {
            Err::<(), Error>(Error::IllegalValue { field: "broadcast read", value: 0 })
        } else {
            Ok(())
        }),
{
    if F::is_broadcast(unit) {
        return Err(Error::IllegalValue { field: "broadcast read", value: 0 });
    }
    Ok(())
}

/// What a call's outcome is to a request whose answer the caller needs: an
/// exception response is the server refusing, and becomes that error; no
/// response at all means the request went out as a broadcast, which a
/// checked request never does.
pub fn answer_of(outcome: Option<ResponsePdu>) -> (r: Result<ResponsePdu>)
    ensures
        match outcome {
            None => r == Err::<ResponsePdu, Error>(Error::Desynchronized),
            Some(ResponsePdu::Exception(x)) => r == Err::<ResponsePdu, Error>(
                Error::Exception { function: x.function, exception: x.exception },
            ),
            Some(p) => r == Ok::<ResponsePdu, Error>(p),
        },
{
    match outcome {
        None => Err(Error::Desynchronized),
        Some(ResponsePdu::Exception(x)) => Err(Error::Exception { function: x.function, exception: x.exception }),
        Some(p) => Ok(p),
    }
}

/// What a call's outcome is to a write: nothing came back from a
/// broadcast, which no server answers; an exception response is the server
/// refusing; any other response is the write acknowledged.
pub fn written_of(outcome: Option<ResponsePdu>) -> (r: Result<()>)
    ensures
        match outcome {
            None => r == Ok::<(), Error>(()),
            Some(ResponsePdu::Exception(x)) => r == Err::<(), Error>(
                Error::Exception { function: x.function, exception: x.exception },
            ),
            Some(_) => r == Ok::<(), Error>(()),
        },
{
    match outcome {
        None => Ok(()),
        Some(ResponsePdu::Exception(x)) => Err(Error::Exception { function: x.function, exception: x.exception }),
        Some(_) => Ok(()),
    }
}

/// Keep the bits asked for and drop the padding the wire adds: a bit
/// response carries whole bytes and no quantity of its own, so only the
/// request knows where the real values end.
pub fn truncate(bits: Vec<bool>, quantity: Quantity) -> (r: Vec<bool>)
    ensures
        r@ == (if quantity.0 < bits@.len() { bits@.take(quantity.0 as int) } else { bits@ }),
{
    let mut bits = bits;
    if (quantity.0 as usize) < bits.len() {
        bits.truncate(quantity.0 as usize);
    }
    bits
}

/// The values a read coils response carries, cut to the quantity asked for.
pub fn coils_of(response: ResponsePdu, quantity: Quantity) -> (r: Result<Vec<bool>>)
    ensures
        match response@ {
            ResponseModel::ReadCoils { coils } => r matches Ok(v) && v@ == (if quantity.0 < coils.len() {
                coils.take(quantity.0 as int)
            } else {
                coils
            }),
            other => r == Err::<Vec<bool>, Error>(spec_mismatch(FunctionCode::ReadCoils, other)),
        },
{
    match response {
        ResponsePdu::ReadCoils { coils } => Ok(truncate(coils, quantity)),
        other => Err(mismatch(FunctionCode::ReadCoils, &other)),
    }
}

/// The values a read discrete inputs response carries, cut to the quantity asked for.
pub fn inputs_of(response: ResponsePdu, quantity: Quantity) -> (r: Result<Vec<bool>>)
    ensures
        match response@ {
            ResponseModel::ReadDiscreteInputs { inputs } => r matches Ok(v) && v@ == (if quantity.0 < inputs.len() {
                inputs.take(quantity.0 as int)
            } else {
                inputs
            }),
            other => r == Err::<Vec<bool>, Error>(spec_mismatch(FunctionCode::ReadDiscreteInputs, other)),
        },
{
    match response {
        ResponsePdu::ReadDiscreteInputs { inputs } => Ok(truncate(inputs, quantity)),
        other => Err(mismatch(FunctionCode::ReadDiscreteInputs, &other)),
    }
}

/// The values a read holding registers response carries.
pub fn holding_registers_of(response: ResponsePdu) -> (r: Result<Vec<RegisterValue>>)
    ensures
        match response@ {
            ResponseModel::ReadHoldingRegisters { registers } => r matches Ok(v) && v@ == registers,
            other => r == Err::<Vec<RegisterValue>, Error>(spec_mismatch(FunctionCode::ReadHoldingRegisters, other)),
        },
{
    match response {
        ResponsePdu::ReadHoldingRegisters { registers } => Ok(registers),
        other => Err(mismatch(FunctionCode::ReadHoldingRegisters, &other)),
    }
}

/// The values a read input registers response carries.
pub fn input_registers_of(response: ResponsePdu) -> (r: Result<Vec<RegisterValue>>)
    ensures
        match response@ {
            ResponseModel::ReadInputRegisters { registers } => r matches Ok(v) && v@ == registers,
            other => r == Err::<Vec<RegisterValue>, Error>(spec_mismatch(FunctionCode::ReadInputRegisters, other)),
        },
{
    match response {
        ResponsePdu::ReadInputRegisters { registers } => Ok(registers),
        other => Err(mismatch(FunctionCode::ReadInputRegisters, &other)),
    }
}

/// The values a read/write multiple registers response carries.
pub fn read_write_registers_of(response: ResponsePdu) -> (r: Result<Vec<RegisterValue>>)
    ensures
        match response@ {
            ResponseModel::ReadWriteMultipleRegisters { registers } => r matches Ok(v) && v@ == registers,
            other => r == Err::<Vec<RegisterValue>, Error>(spec_mismatch(FunctionCode::ReadWriteMultipleRegisters, other)),
        },
{
    match response {
        ResponsePdu::ReadWriteMultipleRegisters { registers } => Ok(registers),
        other => Err(mismatch(FunctionCode::ReadWriteMultipleRegisters, &other)),
    }
}

/// The values a read FIFO queue response carries.
pub fn fifo_values_of(response: ResponsePdu) -> (r: Result<Vec<RegisterValue>>)
    ensures
        match response@ {
            ResponseModel::ReadFifoQueue { values } => r matches Ok(v) && v@ == values,
            other => r == Err::<Vec<RegisterValue>, Error>(spec_mismatch(FunctionCode::ReadFifoQueue, other)),
        },
{
    match response {
        ResponsePdu::ReadFifoQueue { values } => Ok(values),
        other => Err(mismatch(FunctionCode::ReadFifoQueue, &other)),
    }
}

/// The values a report server ID response carries.
pub fn server_id_of(response: ResponsePdu) -> (r: Result<Vec<u8>>)
    ensures
        match response@ {
            ResponseModel::ReportServerId { data } => r matches Ok(v) && v@ == data,
            other => r == Err::<Vec<u8>, Error>(spec_mismatch(FunctionCode::ReportServerId, other)),
        },
{
    match response {
        ResponsePdu::ReportServerId { data } => Ok(data),
        other => Err(mismatch(FunctionCode::ReportServerId, &other)),
    }
}

/// The status byte a read exception status response carries.
pub fn exception_status_of(response: ResponsePdu) -> (r: Result<ExceptionStatus>)
    ensures
        match response@ {
            ResponseModel::ReadExceptionStatus { status } => r == Ok::<ExceptionStatus, Error>(status),
            other => r == Err::<ExceptionStatus, Error>(spec_mismatch(FunctionCode::ReadExceptionStatus, other)),
        },
{
    match response {
        ResponsePdu::ReadExceptionStatus { status } => Ok(status),
        other => Err(mismatch(FunctionCode::ReadExceptionStatus, &other)),
    }
}

/// The raw data words a diagnostics response carries; what they mean is the
/// sub-function's to decide.
pub fn diagnostics_data_of(response: ResponsePdu) -> (r: Result<Vec<u16>>)
    ensures
        match response@ {
            ResponseModel::Diagnostics { data, .. } => r matches Ok(v) && v@ == data,
            other => r == Err::<Vec<u16>, Error>(spec_mismatch(FunctionCode::Diagnostics, other)),
        },
{
    match response {
        ResponsePdu::Diagnostics { data, .. } => Ok(data),
        other => Err(mismatch(FunctionCode::Diagnostics, &other)),
    }
}

/// The counters a get comm event counter response carries.
pub fn comm_event_counter_of(response: ResponsePdu) -> (r: Result<CommEventCounter>)
    ensures
        match response@ {
            ResponseModel::GetCommEventCounter { status, event_count } => r == Ok::<CommEventCounter, Error>(
                CommEventCounter { status, event_count },
            ),
            other => r == Err::<CommEventCounter, Error>(spec_mismatch(FunctionCode::GetCommEventCounter, other)),
        },
{
    match response {
        ResponsePdu::GetCommEventCounter { status, event_count } => Ok(CommEventCounter { status, event_count }),
        other => Err(mismatch(FunctionCode::GetCommEventCounter, &other)),
    }
}

/// The log a get comm event log response carries.
pub fn comm_event_log_of(response: ResponsePdu) -> (r: Result<CommEventLog>)
    ensures
        match response@ {
            ResponseModel::GetCommEventLog { status, event_count, message_count, events } => r matches Ok(log)
                && log.status == status && log.event_count == event_count && log.message_count == message_count
                && log.events@ == events,
            other => r == Err::<CommEventLog, Error>(spec_mismatch(FunctionCode::GetCommEventLog, other)),
        },
{
    match response {
        ResponsePdu::GetCommEventLog { status, event_count, message_count, events } => Ok(
            CommEventLog { status, event_count, message_count, events },
        ),
        other => Err(mismatch(FunctionCode::GetCommEventLog, &other)),
    }
}

/// The sub-responses a read file record response carries.
pub fn file_records_of(response: ResponsePdu) -> (r: Result<Vec<FileRecordReadResponse>>)
    ensures
        match response@ {
            ResponseModel::ReadFileRecord { records } => r matches Ok(v) && read_responses_view(v@) == records,
            other => r == Err::<Vec<FileRecordReadResponse>, Error>(spec_mismatch(FunctionCode::ReadFileRecord, other)),
        },
{
    match response {
        ResponsePdu::ReadFileRecord { records } => Ok(records),
        other => Err(mismatch(FunctionCode::ReadFileRecord, &other)),
    }
}

/// The body an encapsulated interface transport response carries.
pub fn mei_response_of(response: ResponsePdu) -> (r: Result<MeiResponse>)
    ensures
        match response@ {
            ResponseModel::EncapsulatedInterfaceTransport(m) => r matches Ok(v) && v@ == m,
            other => r == Err::<MeiResponse, Error>(spec_mismatch(FunctionCode::EncapsulatedInterfaceTransport, other)),
        },
{
    match response {
        ResponsePdu::EncapsulatedInterfaceTransport(m) => Ok(m),
        other => Err(mismatch(FunctionCode::EncapsulatedInterfaceTransport, &other)),
    }
}

} // verus!
