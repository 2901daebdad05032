//! Encoding and decoding of request and response PDUs.

use vstd::prelude::*;
use vstd::slice::slice_to_vec;

use crate::error::{Error, Result};
use crate::frame::diagnostics::DiagnosticSubFunction;
use crate::frame::exception::ExceptionResponse;
use crate::frame::file::{
    decode_read_requests, decode_read_responses, decode_write_records, encode_read_requests,
    encode_read_responses, encode_write_records,
};
use crate::frame::function::FunctionCode;
use crate::frame::mei;
use crate::frame::pdu_model::{request_result, response_result, RequestModel, RequestPdu, ResponseModel, ResponsePdu};
use crate::frame::pdu_spec::{
    decode_address_quantity, decode_counted, decode_counted_registers, decode_diagnostics,
    decode_event_log, decode_fifo, decode_read_write, decode_single_coil, decode_write_coils,
    decode_write_registers, exact, spec_decode_request, spec_decode_request_body,
    spec_decode_response, spec_decode_response_body, trailing, truncated,
    counted_bytes, custom_bytes, diagnostics_bytes, read_request_bytes, spec_encode_request,
    spec_encode_response, spec_request_body, spec_response_body, COIL_OFF, COIL_ON, MAX_FIFO_COUNT,
    MAX_PDU_LEN, MAX_READ_BITS, MAX_READ_REGISTERS, MAX_READ_WRITE_REGISTERS, MAX_WRITE_COILS,
    MAX_WRITE_REGISTERS,
};
use crate::frame::value::{Address, ExceptionStatus, Mask, Quantity, RegisterValue};
use crate::frame::wire::{
    as_u32, bits_from_bytes, packed_len, packed_len_of, padding_clear, push_bits, push_bytes,
    push_registers, push_u16, push_words, read_u16, registers_from, sat_usize, words_from_bytes,
};

verus! {

/// The value a Mask Write Register leaves in a register holding `current`:
/// `(current AND and_mask) OR (or_mask AND NOT and_mask)`.
pub fn mask_write_result(current: RegisterValue, and_mask: Mask, or_mask: Mask) -> (r: RegisterValue)
    ensures
        r.0 == (current.0 & and_mask.0) | (or_mask.0 & !and_mask.0),
{
    RegisterValue((current.0 & and_mask.0) | (or_mask.0 & !and_mask.0))
}

/// `2n + 2` as a length, saturating.
fn doubled_plus_two(n: usize) -> (r: usize)
    ensures
        r == sat_usize(2 * n + 2),
{
    if n >= usize::MAX / 2 {
        usize::MAX
    } else {
        2 * n + 2
    }
}

/// Append a read request: code, address, quantity within `1..=max`.
fn write_read_request(code: u8, address: Address, quantity: Quantity, max: u16, out: &mut Vec<u8>) -> (r: Result<()>)
    ensures
        match r {
            Ok(()) => read_request_bytes(code, address, quantity, max) matches Ok(b) && final(out)@ == old(out)@ + b,
            Err(e) => read_request_bytes(code, address, quantity, max) == Err::<Seq<u8>, Error>(e) && final(out)@ == old(out)@,
        },
{
    if quantity.0 < 1 || quantity.0 > max {
        return Err(Error::OutOfRange { field: "quantity", value: quantity.0 as u32, min: 1, max: max as u32 });
    }
    out.push(code);
    push_u16(out, address.0);
    push_u16(out, quantity.0);
    proof {
        assert(final(out)@ =~= old(out)@ + (seq![code] + crate::frame::wire::be16(address.0) + crate::frame::wire::be16(quantity.0)));
    }
    Ok(())
}

/// Append a code and two words.
fn write_two_words(code: u8, a: u16, b: u16, out: &mut Vec<u8>)
    ensures
        final(out)@ == old(out)@ + (seq![code] + crate::frame::wire::be16(a) + crate::frame::wire::be16(b)),
{
    out.push(code);
    push_u16(out, a);
    push_u16(out, b);
    proof {
        assert(final(out)@ =~= old(out)@ + (seq![code] + crate::frame::wire::be16(a) + crate::frame::wire::be16(b)));
    }
}

/// Append a Diagnostics body.
fn write_diagnostics(sub_function: DiagnosticSubFunction, data: &[u16], out: &mut Vec<u8>) -> (r: Result<()>)
    ensures
        match r {
            Ok(()) => diagnostics_bytes(sub_function, data@) matches Ok(b) && final(out)@ == old(out)@ + b,
            Err(e) => diagnostics_bytes(sub_function, data@) == Err::<Seq<u8>, Error>(e) && final(out)@ == old(out)@,
        },
{
    let s = match sub_function.encode() {
        Ok(s) => s,
        Err(e) => return Err(e),
    };
    out.push(8);
    push_u16(out, s);
    push_words(out, data);
    proof {
        assert(final(out)@ =~= old(out)@ + (seq![8u8] + crate::frame::wire::be16(s) + crate::frame::wire::words_bytes(data@)));
    }
    Ok(())
}

/// Append a custom function code and its body.
fn write_custom(code: u8, data: &[u8], out: &mut Vec<u8>) -> (r: Result<()>)
    ensures
        match r {
            Ok(()) => custom_bytes(code, data@) matches Ok(b) && final(out)@ == old(out)@ + b,
            Err(e) => custom_bytes(code, data@) == Err::<Seq<u8>, Error>(e) && final(out)@ == old(out)@,
        },
{
    let c = match FunctionCode::Custom(code).encode() {
        Ok(c) => c,
        Err(e) => return Err(e),
    };
    out.push(c);
    push_bytes(out, data);
    proof {
        assert(final(out)@ =~= old(out)@ + (seq![c] + data@));
    }
    Ok(())
}

/// Append a counted run of registers.
fn write_counted_registers(code: u8, registers: &[RegisterValue], out: &mut Vec<u8>) -> (r: Result<()>)
    ensures
        match r {
            Ok(()) => counted_bytes(code, crate::frame::wire::regs_bytes(registers@)) matches Ok(b) && final(out)@ == old(out)@ + b,
            Err(e) => counted_bytes(code, crate::frame::wire::regs_bytes(registers@)) == Err::<Seq<u8>, Error>(e) && final(out)@ == old(out)@,
        },
{
    if registers.len() > 127 {
        return Err(Error::PduTooLarge { len: doubled_plus_two(registers.len()), max: MAX_PDU_LEN });
    }
    out.push(code);
    out.push((2 * registers.len()) as u8);
    push_registers(out, registers);
    proof {
        assert(final(out)@ =~= old(out)@ + (seq![code, (2 * registers@.len()) as u8] + crate::frame::wire::regs_bytes(registers@)));
    }
    Ok(())
}

/// Append a counted run of packed bits.
fn write_counted_bits(code: u8, bits: &[bool], out: &mut Vec<u8>) -> (r: Result<()>)
    ensures
        match r {
            Ok(()) => counted_bytes(code, crate::frame::wire::pack_bits(bits@)) matches Ok(b) && final(out)@ == old(out)@ + b,
            Err(e) => counted_bytes(code, crate::frame::wire::pack_bits(bits@)) == Err::<Seq<u8>, Error>(e) && final(out)@ == old(out)@,
        },
{
    let count = packed_len_of(bits.len());
    if count > 255 {
        return Err(Error::PduTooLarge { len: count.saturating_add(2), max: MAX_PDU_LEN });
    }
    out.push(code);
    out.push(count as u8);
    push_bits(out, bits);
    proof {
        assert(final(out)@ =~= old(out)@ + (seq![code, count as u8] + crate::frame::wire::pack_bits(bits@)));
    }
    Ok(())
}

/// Append a counted run of raw bytes.
fn write_counted_bytes(code: u8, data: &[u8], out: &mut Vec<u8>) -> (r: Result<()>)
    ensures
        match r {
            Ok(()) => counted_bytes(code, data@) matches Ok(b) && final(out)@ == old(out)@ + b,
            Err(e) => counted_bytes(code, data@) == Err::<Seq<u8>, Error>(e) && final(out)@ == old(out)@,
        },
{
    if data.len() > 255 {
        return Err(Error::PduTooLarge { len: data.len().saturating_add(2), max: MAX_PDU_LEN });
    }
    out.push(code);
    out.push(data.len() as u8);
    push_bytes(out, data);
    proof {
        assert(final(out)@ =~= old(out)@ + (seq![code, data@.len() as u8] + data@));
    }
    Ok(())
}

/// Append the code byte, then a file body written by a body encoder.
proof fn lemma_with_code(code: u8, old_out: Seq<u8>, body: Seq<u8>, out: Seq<u8>)
    requires
        out == old_out.push(code) + body,
    ensures
        out == old_out + (seq![code] + body),
{
    assert(out =~= old_out + (seq![code] + body));
}

/// Append a request's bytes, before the size check. On failure `out` keeps its
/// original contents as a prefix.
fn write_request_body(p: &RequestPdu, out: &mut Vec<u8>) -> (r: Result<()>)
    ensures
        final(out)@.len() >= old(out)@.len(),
        final(out)@.subrange(0, old(out)@.len() as int) == old(out)@,
        match r {
            Ok(()) => spec_request_body(p@) matches Ok(b) && final(out)@ == old(out)@ + b,
            Err(e) => spec_request_body(p@) == Err::<Seq<u8>, Error>(e),
        },
{
    let ghost start = out@;
    let r = match p {
        RequestPdu::ReadCoils { address, quantity } => write_read_request(1, *address, *quantity, MAX_READ_BITS, out),
        RequestPdu::ReadDiscreteInputs { address, quantity } => write_read_request(2, *address, *quantity, MAX_READ_BITS, out),
        RequestPdu::ReadHoldingRegisters { address, quantity } => write_read_request(3, *address, *quantity, MAX_READ_REGISTERS, out),
        RequestPdu::ReadInputRegisters { address, quantity } => write_read_request(4, *address, *quantity, MAX_READ_REGISTERS, out),
        RequestPdu::WriteSingleCoil { address, value } => {
            write_two_words(5, address.0, if *value { COIL_ON } else { COIL_OFF }, out);
            Ok(())
        },
        RequestPdu::WriteSingleRegister { address, value } => {
            write_two_words(6, address.0, value.0, out);
            Ok(())
        },
        RequestPdu::ReadExceptionStatus => {
            out.push(7);
            Ok(())
        },
        RequestPdu::Diagnostics { sub_function, data } => write_diagnostics(*sub_function, data.as_slice(), out),
        RequestPdu::GetCommEventCounter => {
            out.push(11);
            Ok(())
        },
        RequestPdu::GetCommEventLog => {
            out.push(12);
            Ok(())
        },
        RequestPdu::WriteMultipleCoils { address, coils } => {
            if coils.len() < 1 || coils.len() > MAX_WRITE_COILS as usize {
                Err(Error::OutOfRange { field: "quantity", value: as_u32(coils.len()), min: 1, max: MAX_WRITE_COILS as u32 })
            } else {
                write_two_words(15, address.0, coils.len() as u16, out);
                let ghost mid = out@;
                out.push(packed_len_of(coils.len()) as u8);
                push_bits(out, coils.as_slice());
                proof {
                    assert(out@ =~= mid + (seq![packed_len(coils@.len() as int) as u8] + crate::frame::wire::pack_bits(coils@)));
                }
                Ok(())
            }
        },
        RequestPdu::WriteMultipleRegisters { address, registers } => {
            if registers.len() < 1 || registers.len() > MAX_WRITE_REGISTERS as usize {
                Err(Error::OutOfRange { field: "quantity", value: as_u32(registers.len()), min: 1, max: MAX_WRITE_REGISTERS as u32 })
            } else {
                write_two_words(16, address.0, registers.len() as u16, out);
                let ghost mid = out@;
                out.push((2 * registers.len()) as u8);
                push_registers(out, registers.as_slice());
                proof {
                    assert(out@ =~= mid + (seq![(2 * registers@.len()) as u8] + crate::frame::wire::regs_bytes(registers@)));
                }
                Ok(())
            }
        },
        RequestPdu::ReportServerId => {
            out.push(17);
            Ok(())
        },
        RequestPdu::ReadFileRecord { records } => {
            out.push(20);
            let ghost mid = out@;
            let r = encode_read_requests(records.as_slice(), out);
            proof {
                if r is Ok {
                    lemma_with_code(20, start, spec_encode_read_requests_ok(records@), out@);
                }
                assert(out@.subrange(0, start.len() as int) =~= out@.subrange(0, mid.len() as int).subrange(0, start.len() as int));
            }
            r
        },
        RequestPdu::WriteFileRecord { records } => {
            out.push(21);
            let ghost mid = out@;
            let r = encode_write_records(records.as_slice(), out);
            proof {
                if r is Ok {
                    lemma_with_code(21, start, crate::frame::file::spec_encode_write_records(crate::frame::file::writes_view(records@))->Ok_0, out@);
                }
                assert(out@.subrange(0, start.len() as int) =~= out@.subrange(0, mid.len() as int).subrange(0, start.len() as int));
            }
            r
        },
        RequestPdu::MaskWriteRegister { address, and_mask, or_mask } => {
            write_two_words(22, address.0, and_mask.0, out);
            let ghost mid = out@;
            push_u16(out, or_mask.0);
            proof {
                assert(out@ =~= start + (seq![22u8] + crate::frame::wire::be16(address.0) + crate::frame::wire::be16(and_mask.0) + crate::frame::wire::be16(or_mask.0)));
            }
            Ok(())
        },
        RequestPdu::ReadWriteMultipleRegisters { read_address, read_quantity, write_address, registers } => {
            if read_quantity.0 < 1 || read_quantity.0 > MAX_READ_REGISTERS {
                Err(Error::OutOfRange { field: "read quantity", value: read_quantity.0 as u32, min: 1, max: MAX_READ_REGISTERS as u32 })
            } else if registers.len() < 1 || registers.len() > MAX_READ_WRITE_REGISTERS as usize {
                Err(Error::OutOfRange { field: "write quantity", value: as_u32(registers.len()), min: 1, max: MAX_READ_WRITE_REGISTERS as u32 })
            } else {
                write_two_words(23, read_address.0, read_quantity.0, out);
                push_u16(out, write_address.0);
                push_u16(out, registers.len() as u16);
                out.push((2 * registers.len()) as u8);
                push_registers(out, registers.as_slice());
                proof {
                    assert(out@ =~= start + (seq![23u8] + crate::frame::wire::be16(read_address.0) + crate::frame::wire::be16(read_quantity.0) + crate::frame::wire::be16(write_address.0) + crate::frame::wire::be16(registers@.len() as u16) + seq![(2 * registers@.len()) as u8] + crate::frame::wire::regs_bytes(registers@)));
                }
                Ok(())
            }
        },
        RequestPdu::ReadFifoQueue { address } => {
            out.push(24);
            push_u16(out, address.0);
            proof {
                assert(out@ =~= start + (seq![24u8] + crate::frame::wire::be16(address.0)));
            }
            Ok(())
        },
        RequestPdu::EncapsulatedInterfaceTransport(m) => {
            out.push(43);
            let ghost mid = out@;
            mei::encode_request(m, out);
            proof {
                assert(out@ =~= start + (seq![43u8] + crate::frame::mei::spec_encode_mei_request(m@)));
            }
            Ok(())
        },
        RequestPdu::Custom { code, data } => write_custom(*code, data.as_slice(), out),
    };
    proof {
        if r is Ok {
            assert(out@.subrange(0, start.len() as int) =~= start);
        }
    }
    r
}

/// The body a successful read-request encoding yields.
spec fn spec_encode_read_requests_ok(records: Seq<crate::frame::file::FileRecordRead>) -> Seq<u8> {
    crate::frame::file::spec_encode_read_requests(records)->Ok_0
}

/// Append a response's bytes, before the size check. On failure `out` keeps
/// its original contents as a prefix.
fn write_response_body(p: &ResponsePdu, out: &mut Vec<u8>) -> (r: Result<()>)
    ensures
        final(out)@.len() >= old(out)@.len(),
        final(out)@.subrange(0, old(out)@.len() as int) == old(out)@,
        match r {
            Ok(()) => spec_response_body(p@) matches Ok(b) && final(out)@ == old(out)@ + b,
            Err(e) => spec_response_body(p@) == Err::<Seq<u8>, Error>(e),
        },
{
    let ghost start = out@;
    let r = match p {
        ResponsePdu::ReadCoils { coils } => write_counted_bits(1, coils.as_slice(), out),
        ResponsePdu::ReadDiscreteInputs { inputs } => write_counted_bits(2, inputs.as_slice(), out),
        ResponsePdu::ReadHoldingRegisters { registers } => write_counted_registers(3, registers.as_slice(), out),
        ResponsePdu::ReadInputRegisters { registers } => write_counted_registers(4, registers.as_slice(), out),
        ResponsePdu::WriteSingleCoil { address, value } => {
            write_two_words(5, address.0, if *value { COIL_ON } else { COIL_OFF }, out);
            Ok(())
        },
        ResponsePdu::WriteSingleRegister { address, value } => {
            write_two_words(6, address.0, value.0, out);
            Ok(())
        },
        ResponsePdu::ReadExceptionStatus { status } => {
            out.push(7);
            out.push(status.0);
            proof {
                assert(out@ =~= start + seq![7u8, status.0]);
            }
            Ok(())
        },
        ResponsePdu::Diagnostics { sub_function, data } => write_diagnostics(*sub_function, data.as_slice(), out),
        ResponsePdu::GetCommEventCounter { status, event_count } => {
            write_two_words(11, *status, *event_count, out);
            Ok(())
        },
        ResponsePdu::GetCommEventLog { status, event_count, message_count, events } => {
            if events.len() > 249 {
                Err(Error::PduTooLarge { len: events.len().saturating_add(8), max: MAX_PDU_LEN })
            } else {
                out.push(12);
                out.push((events.len() + 6) as u8);
                push_u16(out, *status);
                push_u16(out, *event_count);
                push_u16(out, *message_count);
                push_bytes(out, events.as_slice());
                proof {
                    assert(out@ =~= start + (seq![12u8, (events@.len() + 6) as u8] + crate::frame::wire::be16(*status) + crate::frame::wire::be16(*event_count) + crate::frame::wire::be16(*message_count) + events@));
                }
                Ok(())
            }
        },
        ResponsePdu::WriteMultipleCoils { address, quantity } => write_read_request(15, *address, *quantity, MAX_WRITE_COILS, out),
        ResponsePdu::WriteMultipleRegisters { address, quantity } => write_read_request(16, *address, *quantity, MAX_WRITE_REGISTERS, out),
        ResponsePdu::ReportServerId { data } => write_counted_bytes(17, data.as_slice(), out),
        ResponsePdu::ReadFileRecord { records } => {
            out.push(20);
            let ghost mid = out@;
            let r = encode_read_responses(records.as_slice(), out);
            proof {
                if r is Ok {
                    lemma_with_code(20, start, crate::frame::file::spec_encode_read_responses(crate::frame::file::read_responses_view(records@))->Ok_0, out@);
                }
                assert(out@.subrange(0, start.len() as int) =~= out@.subrange(0, mid.len() as int).subrange(0, start.len() as int));
            }
            r
        },
        ResponsePdu::WriteFileRecord { records } => {
            out.push(21);
            let ghost mid = out@;
            let r = encode_write_records(records.as_slice(), out);
            proof {
                if r is Ok {
                    lemma_with_code(21, start, crate::frame::file::spec_encode_write_records(crate::frame::file::writes_view(records@))->Ok_0, out@);
                }
                assert(out@.subrange(0, start.len() as int) =~= out@.subrange(0, mid.len() as int).subrange(0, start.len() as int));
            }
            r
        },
        ResponsePdu::MaskWriteRegister { address, and_mask, or_mask } => {
            write_two_words(22, address.0, and_mask.0, out);
            push_u16(out, or_mask.0);
            proof {
                assert(out@ =~= start + (seq![22u8] + crate::frame::wire::be16(address.0) + crate::frame::wire::be16(and_mask.0) + crate::frame::wire::be16(or_mask.0)));
            }
            Ok(())
        },
        ResponsePdu::ReadWriteMultipleRegisters { registers } => write_counted_registers(23, registers.as_slice(), out),
        ResponsePdu::ReadFifoQueue { values } => {
            if values.len() > MAX_FIFO_COUNT as usize {
                Err(Error::OutOfRange { field: "FIFO count", value: as_u32(values.len()), min: 0, max: MAX_FIFO_COUNT as u32 })
            } else {
                write_two_words(24, (2 + 2 * values.len()) as u16, values.len() as u16, out);
                push_registers(out, values.as_slice());
                proof {
                    assert(out@ =~= start + (seq![24u8] + crate::frame::wire::be16((2 + 2 * values@.len()) as u16) + crate::frame::wire::be16(values@.len() as u16) + crate::frame::wire::regs_bytes(values@)));
                }
                Ok(())
            }
        },
        ResponsePdu::EncapsulatedInterfaceTransport(m) => {
            out.push(43);
            let ghost mid = out@;
            let r = mei::encode_response(m, out);
            proof {
                if r is Ok {
                    lemma_with_code(43, start, crate::frame::mei::spec_encode_mei_response(m@)->Ok_0, out@);
                }
                assert(out@.subrange(0, start.len() as int) =~= out@.subrange(0, mid.len() as int).subrange(0, start.len() as int));
            }
            r
        },
        ResponsePdu::Custom { code, data } => write_custom(*code, data.as_slice(), out),
        ResponsePdu::Exception(e) => {
            match e.encode() {
                Ok(bytes) => {
                    push_bytes(out, bytes.as_slice());
                    Ok(())
                },
                Err(err) => Err(err),
            }
        },
    };
    proof {
        if r is Ok {
            assert(out@.subrange(0, start.len() as int) =~= start);
        }
    }
    r
}

impl RequestPdu {
    /// Encode to a request PDU, appending to `out`. A failure leaves `out`
    /// exactly as it was found.
    pub fn encode_into(&self, out: &mut Vec<u8>) -> (r: Result<()>)
        ensures
            match r {
                Ok(()) => spec_encode_request(self@) matches Ok(b) && final(out)@ == old(out)@ + b,
                Err(e) => spec_encode_request(self@) == Err::<Seq<u8>, Error>(e) && final(out)@ == old(out)@,
            },
    {
        let at = out.len();
        match write_request_body(self, out) {
            Ok(()) => {},
            Err(e) => {
                out.truncate(at);
                return Err(e);
            },
        }
        let len = out.len() - at;
        if len > MAX_PDU_LEN {
            out.truncate(at);
            return Err(Error::PduTooLarge { len, max: MAX_PDU_LEN });
        }
        Ok(())
    }

    /// Encode to a request PDU.
    pub fn encode(&self) -> (r: Result<Vec<u8>>)
        ensures
            match r {
                Ok(v) => spec_encode_request(self@) == Ok::<Seq<u8>, Error>(v@),
                Err(e) => spec_encode_request(self@) == Err::<Seq<u8>, Error>(e),
            },
    {
        let mut out: Vec<u8> = Vec::new();
        match self.encode_into(&mut out) {
            Ok(()) => {
                proof {
                    assert(out@ =~= spec_encode_request(self@)->Ok_0);
                }
                Ok(out)
            },
            Err(e) => Err(e),
        }
    }
}

impl ResponsePdu {
    /// Encode to a response PDU, appending to `out`. A failure leaves `out`
    /// exactly as it was found.
    pub fn encode_into(&self, out: &mut Vec<u8>) -> (r: Result<()>)
        ensures
            match r {
                Ok(()) => spec_encode_response(self@) matches Ok(b) && final(out)@ == old(out)@ + b,
                Err(e) => spec_encode_response(self@) == Err::<Seq<u8>, Error>(e) && final(out)@ == old(out)@,
            },
    {
        let at = out.len();
        match write_response_body(self, out) {
            Ok(()) => {},
            Err(e) => {
                out.truncate(at);
                return Err(e);
            },
        }
        let len = out.len() - at;
        if len > MAX_PDU_LEN {
            out.truncate(at);
            return Err(Error::PduTooLarge { len, max: MAX_PDU_LEN });
        }
        Ok(())
    }

    /// Encode to a response PDU.
    pub fn encode(&self) -> (r: Result<Vec<u8>>)
        ensures
            match r {
                Ok(v) => spec_encode_response(self@) == Ok::<Seq<u8>, Error>(v@),
                Err(e) => spec_encode_response(self@) == Err::<Seq<u8>, Error>(e),
            },
    {
        let mut out: Vec<u8> = Vec::new();
        match self.encode_into(&mut out) {
            Ok(()) => {
                proof {
                    assert(out@ =~= spec_encode_response(self@)->Ok_0);
                }
                Ok(out)
            },
            Err(e) => Err(e),
        }
    }
}

// ---------------------------------------------------------------------------
// Decoding.

/// The truncation met when a field ending at `end` runs past `n` bytes.
fn truncation(end: usize, n: usize) -> (e: Error)
    ensures
        e == truncated(end as int, n as int),
{
    Error::Truncated { expected: end, supplied: n }
}

/// The surplus after a complete layout of `end` bytes.
fn surplus(end: usize, n: usize) -> (e: Error)
    requires
        end <= n,
    ensures
        e == trailing(end as int, n as int),
{
    Error::TrailingBytes { extra: n - end }
}

/// A fixed layout of `end` bytes: truncation before it, surplus past it.
fn check_exact(p: &[u8], end: usize) -> (r: Option<Error>)
    ensures
        r == exact(p@, end as int),
{
    let n = p.len();
    if n < end {
        Some(truncation(end, n))
    } else if n > end {
        Some(surplus(end, n))
    } else {
        None
    }
}

fn address_quantity(p: &[u8], field: &'static str, max: u16) -> (r: Result<(Address, Quantity)>)
    ensures
        r == decode_address_quantity(p@, field, max),
{
    let n = p.len();
    if n < 3 {
        return Err(truncation(3, n));
    }
    if n < 5 {
        return Err(truncation(5, n));
    }
    let q = read_u16(p, 3);
    if q < 1 || q > max {
        return Err(Error::OutOfRange { field, value: q as u32, min: 1, max: max as u32 });
    }
    if n > 5 {
        return Err(surplus(5, n));
    }
    Ok((Address(read_u16(p, 1)), Quantity(q)))
}

fn single_coil(p: &[u8]) -> (r: Result<(Address, bool)>)
    ensures
        r == decode_single_coil(p@),
{
    let n = p.len();
    if n < 3 {
        return Err(truncation(3, n));
    }
    if n < 5 {
        return Err(truncation(5, n));
    }
    let raw = read_u16(p, 3);
    if raw != COIL_ON && raw != COIL_OFF {
        return Err(Error::IllegalValue { field: "coil value", value: raw });
    }
    if n > 5 {
        return Err(surplus(5, n));
    }
    Ok((Address(read_u16(p, 1)), raw == COIL_ON))
}

fn diagnostics(p: &[u8]) -> (r: Result<(DiagnosticSubFunction, Vec<u16>)>)
    ensures
        match r {
            Ok((s, d)) => decode_diagnostics(p@) == Ok::<(DiagnosticSubFunction, Seq<u16>), Error>((s, d@)),
            Err(e) => decode_diagnostics(p@) == Err::<(DiagnosticSubFunction, Seq<u16>), Error>(e),
        },
{
    let n = p.len();
    if n < 3 {
        return Err(truncation(3, n));
    }
    if (n - 3) % 2 != 0 {
        return Err(Error::Truncated { expected: n.saturating_add(1), supplied: n });
    }
    let data = words_from_bytes(&p[3..n]);
    proof {
        assert(p@.subrange(3, n as int) =~= p@.skip(3));
    }
    Ok((DiagnosticSubFunction::decode(read_u16(p, 1)), data))
}

fn counted(p: &[u8]) -> (r: Result<&[u8]>)
    ensures
        match r {
            Ok(d) => decode_counted(p@) == Ok::<Seq<u8>, Error>(d@),
            Err(e) => decode_counted(p@) == Err::<Seq<u8>, Error>(e),
        },
{
    let n = p.len();
    if n < 2 {
        return Err(truncation(2, n));
    }
    if n - 2 != p[1] as usize {
        return Err(Error::ByteCountMismatch { expected: p[1] as usize, actual: n - 2 });
    }
    let d = &p[2..n];
    proof {
        assert(d@ =~= p@.skip(2));
    }
    Ok(d)
}

fn counted_registers(p: &[u8]) -> (r: Result<Vec<RegisterValue>>)
    ensures
        match r {
            Ok(v) => decode_counted_registers(p@) == Ok::<Seq<RegisterValue>, Error>(v@),
            Err(e) => decode_counted_registers(p@) == Err::<Seq<RegisterValue>, Error>(e),
        },
{
    let data = match counted(p) {
        Ok(d) => d,
        Err(e) => return Err(e),
    };
    if data.len() % 2 != 0 {
        return Err(Error::IllegalValue { field: "byte count", value: data.len() as u16 });
    }
    Ok(registers_from(data))
}

/// Whether the bits past `n` in the last byte of `data` are all clear.
fn check_padding(data: &[u8], n: usize) -> (r: bool)
    ensures
        r == padding_clear(data@, n as int),
{
    if n % 8 == 0 || data.len() == 0 {
        return true;
    }
    let last = data[data.len() - 1];
    (last >> ((n % 8) as u8)) == 0
}

fn write_coils(p: &[u8]) -> (r: Result<RequestPdu>)
    ensures
        request_result(r) == decode_write_coils(p@),
{
    let n = p.len();
    if n < 3 {
        return Err(truncation(3, n));
    }
    if n < 5 {
        return Err(truncation(5, n));
    }
    let q = read_u16(p, 3);
    if q < 1 || q > MAX_WRITE_COILS {
        return Err(Error::OutOfRange { field: "quantity", value: q as u32, min: 1, max: MAX_WRITE_COILS as u32 });
    }
    if n < 6 {
        return Err(truncation(6, n));
    }
    let count = p[5] as usize;
    let expected = packed_len_of(q as usize);
    if count != expected {
        return Err(Error::ByteCountMismatch { expected, actual: count });
    }
    let end = 6 + count;
    if n < end {
        return Err(truncation(end, n));
    }
    let data = &p[6..end];
    if !check_padding(data, q as usize) {
        return Err(Error::IllegalValue { field: "coil padding", value: p[5 + count] as u16 });
    }
    if n > end {
        return Err(surplus(end, n));
    }
    let mut bits = bits_from_bytes(data);
    bits.truncate(q as usize);
    Ok(RequestPdu::WriteMultipleCoils { address: Address(read_u16(p, 1)), coils: bits })
}

fn write_registers(p: &[u8]) -> (r: Result<RequestPdu>)
    ensures
        request_result(r) == decode_write_registers(p@),
{
    let n = p.len();
    if n < 3 {
        return Err(truncation(3, n));
    }
    if n < 5 {
        return Err(truncation(5, n));
    }
    let q = read_u16(p, 3);
    if q < 1 || q > MAX_WRITE_REGISTERS {
        return Err(Error::OutOfRange { field: "quantity", value: q as u32, min: 1, max: MAX_WRITE_REGISTERS as u32 });
    }
    if n < 6 {
        return Err(truncation(6, n));
    }
    let count = p[5] as usize;
    if count != 2 * q as usize {
        return Err(Error::ByteCountMismatch { expected: 2 * q as usize, actual: count });
    }
    let end = 6 + count;
    if n < end {
        return Err(truncation(end, n));
    }
    if n > end {
        return Err(surplus(end, n));
    }
    Ok(RequestPdu::WriteMultipleRegisters { address: Address(read_u16(p, 1)), registers: registers_from(&p[6..end]) })
}

fn read_write(p: &[u8]) -> (r: Result<RequestPdu>)
    ensures
        request_result(r) == decode_read_write(p@),
{
    let n = p.len();
    if n < 3 {
        return Err(truncation(3, n));
    }
    if n < 5 {
        return Err(truncation(5, n));
    }
    let rq = read_u16(p, 3);
    if rq < 1 || rq > MAX_READ_REGISTERS {
        return Err(Error::OutOfRange { field: "read quantity", value: rq as u32, min: 1, max: MAX_READ_REGISTERS as u32 });
    }
    if n < 7 {
        return Err(truncation(7, n));
    }
    if n < 9 {
        return Err(truncation(9, n));
    }
    let w = read_u16(p, 7);
    if w < 1 || w > MAX_READ_WRITE_REGISTERS {
        return Err(Error::OutOfRange { field: "write quantity", value: w as u32, min: 1, max: MAX_READ_WRITE_REGISTERS as u32 });
    }
    if n < 10 {
        return Err(truncation(10, n));
    }
    let count = p[9] as usize;
    if count != 2 * w as usize {
        return Err(Error::ByteCountMismatch { expected: 2 * w as usize, actual: count });
    }
    let end = 10 + count;
    if n < end {
        return Err(truncation(end, n));
    }
    if n > end {
        return Err(surplus(end, n));
    }
    Ok(RequestPdu::ReadWriteMultipleRegisters {
        read_address: Address(read_u16(p, 1)),
        read_quantity: Quantity(rq),
        write_address: Address(read_u16(p, 5)),
        registers: registers_from(&p[10..end]),
    })
}

fn event_log(p: &[u8]) -> (r: Result<ResponsePdu>)
    ensures
        response_result(r) == decode_event_log(p@),
{
    let data = match counted(p) {
        Ok(d) => d,
        Err(e) => return Err(e),
    };
    if data.len() < 6 {
        return Err(Error::IllegalValue { field: "byte count", value: data.len() as u16 });
    }
    let n = p.len();
    let events = slice_to_vec(&p[8..n]);
    proof {
        assert(events@ =~= p@.skip(8));
    }
    Ok(ResponsePdu::GetCommEventLog {
        status: read_u16(p, 2),
        event_count: read_u16(p, 4),
        message_count: read_u16(p, 6),
        events,
    })
}

fn fifo(p: &[u8]) -> (r: Result<ResponsePdu>)
    ensures
        response_result(r) == decode_fifo(p@),
{
    let n = p.len();
    if n < 3 {
        return Err(truncation(3, n));
    }
    if n < 5 {
        return Err(truncation(5, n));
    }
    let count = read_u16(p, 3);
    if count > MAX_FIFO_COUNT {
        return Err(Error::OutOfRange { field: "FIFO count", value: count as u32, min: 0, max: MAX_FIFO_COUNT as u32 });
    }
    let bc = read_u16(p, 1);
    if bc != 2 + 2 * count {
        return Err(Error::ByteCountMismatch { expected: (2 + 2 * count) as usize, actual: bc as usize });
    }
    let end = 5 + 2 * count as usize;
    if n < end {
        return Err(truncation(end, n));
    }
    if n > end {
        return Err(surplus(end, n));
    }
    Ok(ResponsePdu::ReadFifoQueue { values: registers_from(&p[5..end]) })
}

fn rest_after_code(p: &[u8]) -> (r: Vec<u8>)
    requires
        p@.len() >= 1,
    ensures
        r@ == p@.skip(1),
{
    let n = p.len();
    let v = slice_to_vec(&p[1..n]);
    proof {
        assert(v@ =~= p@.skip(1));
    }
    v
}

fn decode_request_body(fc: FunctionCode, p: &[u8]) -> (r: Result<RequestPdu>)
    requires
        p@.len() >= 1,
    ensures
        request_result(r) == spec_decode_request_body(fc, p@),
{
    let n = p.len();
    match fc {
        FunctionCode::ReadCoils => match address_quantity(p, "quantity", MAX_READ_BITS) {
            Ok((address, quantity)) => Ok(RequestPdu::ReadCoils { address, quantity }),
            Err(e) => Err(e),
        },
        FunctionCode::ReadDiscreteInputs => match address_quantity(p, "quantity", MAX_READ_BITS) {
            Ok((address, quantity)) => Ok(RequestPdu::ReadDiscreteInputs { address, quantity }),
            Err(e) => Err(e),
        },
        FunctionCode::ReadHoldingRegisters => match address_quantity(p, "quantity", MAX_READ_REGISTERS) {
            Ok((address, quantity)) => Ok(RequestPdu::ReadHoldingRegisters { address, quantity }),
            Err(e) => Err(e),
        },
        FunctionCode::ReadInputRegisters => match address_quantity(p, "quantity", MAX_READ_REGISTERS) {
            Ok((address, quantity)) => Ok(RequestPdu::ReadInputRegisters { address, quantity }),
            Err(e) => Err(e),
        },
        FunctionCode::WriteSingleCoil => match single_coil(p) {
            Ok((address, value)) => Ok(RequestPdu::WriteSingleCoil { address, value }),
            Err(e) => Err(e),
        },
        FunctionCode::WriteSingleRegister => {
            if n < 3 {
                return Err(truncation(3, n));
            }
            match check_exact(p, 5) {
                Some(e) => Err(e),
                None => Ok(RequestPdu::WriteSingleRegister { address: Address(read_u16(p, 1)), value: RegisterValue(read_u16(p, 3)) }),
            }
        },
        FunctionCode::ReadExceptionStatus => if n > 1 { Err(surplus(1, n)) } else { Ok(RequestPdu::ReadExceptionStatus) },
        FunctionCode::Diagnostics => match diagnostics(p) {
            Ok((sub_function, data)) => Ok(RequestPdu::Diagnostics { sub_function, data }),
            Err(e) => Err(e),
        },
        FunctionCode::GetCommEventCounter => if n > 1 { Err(surplus(1, n)) } else { Ok(RequestPdu::GetCommEventCounter) },
        FunctionCode::GetCommEventLog => if n > 1 { Err(surplus(1, n)) } else { Ok(RequestPdu::GetCommEventLog) },
        FunctionCode::WriteMultipleCoils => write_coils(p),
        FunctionCode::WriteMultipleRegisters => write_registers(p),
        FunctionCode::ReportServerId => if n > 1 { Err(surplus(1, n)) } else { Ok(RequestPdu::ReportServerId) },
        FunctionCode::ReadFileRecord => match decode_read_requests(p) {
            Ok((records, end)) => if n > end { Err(surplus(end, n)) } else { Ok(RequestPdu::ReadFileRecord { records }) },
            Err(e) => Err(e),
        },
        FunctionCode::WriteFileRecord => match decode_write_records(p) {
            Ok((records, end)) => if n > end { Err(surplus(end, n)) } else { Ok(RequestPdu::WriteFileRecord { records }) },
            Err(e) => Err(e),
        },
        FunctionCode::MaskWriteRegister => {
            if n < 3 {
                return Err(truncation(3, n));
            }
            if n < 5 {
                return Err(truncation(5, n));
            }
            match check_exact(p, 7) {
                Some(e) => Err(e),
                None => Ok(RequestPdu::MaskWriteRegister {
                    address: Address(read_u16(p, 1)),
                    and_mask: Mask(read_u16(p, 3)),
                    or_mask: Mask(read_u16(p, 5)),
                }),
            }
        },
        FunctionCode::ReadWriteMultipleRegisters => read_write(p),
        FunctionCode::ReadFifoQueue => match check_exact(p, 3) {
            Some(e) => Err(e),
            None => Ok(RequestPdu::ReadFifoQueue { address: Address(read_u16(p, 1)) }),
        },
        FunctionCode::EncapsulatedInterfaceTransport => match mei::decode_request(p) {
            Ok(m) => Ok(RequestPdu::EncapsulatedInterfaceTransport(m)),
            Err(e) => Err(e),
        },
        FunctionCode::Custom(code) => Ok(RequestPdu::Custom { code, data: rest_after_code(p) }),
    }
}

fn decode_response_body(fc: FunctionCode, p: &[u8]) -> (r: Result<ResponsePdu>)
    requires
        p@.len() >= 1,
    ensures
        response_result(r) == spec_decode_response_body(fc, p@),
{
    let n = p.len();
    match fc {
        FunctionCode::ReadCoils => match counted(p) {
            Ok(data) => Ok(ResponsePdu::ReadCoils { coils: bits_from_bytes(data) }),
            Err(e) => Err(e),
        },
        FunctionCode::ReadDiscreteInputs => match counted(p) {
            Ok(data) => Ok(ResponsePdu::ReadDiscreteInputs { inputs: bits_from_bytes(data) }),
            Err(e) => Err(e),
        },
        FunctionCode::ReadHoldingRegisters => match counted_registers(p) {
            Ok(registers) => Ok(ResponsePdu::ReadHoldingRegisters { registers }),
            Err(e) => Err(e),
        },
        FunctionCode::ReadInputRegisters => match counted_registers(p) {
            Ok(registers) => Ok(ResponsePdu::ReadInputRegisters { registers }),
            Err(e) => Err(e),
        },
        FunctionCode::WriteSingleCoil => match single_coil(p) {
            Ok((address, value)) => Ok(ResponsePdu::WriteSingleCoil { address, value }),
            Err(e) => Err(e),
        },
        FunctionCode::WriteSingleRegister => {
            if n < 3 {
                return Err(truncation(3, n));
            }
            match check_exact(p, 5) {
                Some(e) => Err(e),
                None => Ok(ResponsePdu::WriteSingleRegister { address: Address(read_u16(p, 1)), value: RegisterValue(read_u16(p, 3)) }),
            }
        },
        FunctionCode::ReadExceptionStatus => match check_exact(p, 2) {
            Some(e) => Err(e),
            None => Ok(ResponsePdu::ReadExceptionStatus { status: ExceptionStatus(p[1]) }),
        },
        FunctionCode::Diagnostics => match diagnostics(p) {
            Ok((sub_function, data)) => Ok(ResponsePdu::Diagnostics { sub_function, data }),
            Err(e) => Err(e),
        },
        FunctionCode::GetCommEventCounter => {
            if n < 3 {
                return Err(truncation(3, n));
            }
            match check_exact(p, 5) {
                Some(e) => Err(e),
                None => Ok(ResponsePdu::GetCommEventCounter { status: read_u16(p, 1), event_count: read_u16(p, 3) }),
            }
        },
        FunctionCode::GetCommEventLog => event_log(p),
        FunctionCode::WriteMultipleCoils => match address_quantity(p, "quantity", MAX_WRITE_COILS) {
            Ok((address, quantity)) => Ok(ResponsePdu::WriteMultipleCoils { address, quantity }),
            Err(e) => Err(e),
        },
        FunctionCode::WriteMultipleRegisters => match address_quantity(p, "quantity", MAX_WRITE_REGISTERS) {
            Ok((address, quantity)) => Ok(ResponsePdu::WriteMultipleRegisters { address, quantity }),
            Err(e) => Err(e),
        },
        FunctionCode::ReportServerId => match counted(p) {
            Ok(data) => Ok(ResponsePdu::ReportServerId { data: slice_to_vec(data) }),
            Err(e) => Err(e),
        },
        FunctionCode::ReadFileRecord => match decode_read_responses(p) {
            Ok((records, end)) => if n > end { Err(surplus(end, n)) } else { Ok(ResponsePdu::ReadFileRecord { records }) },
            Err(e) => Err(e),
        },
        FunctionCode::WriteFileRecord => match decode_write_records(p) {
            Ok((records, end)) => if n > end { Err(surplus(end, n)) } else { Ok(ResponsePdu::WriteFileRecord { records }) },
            Err(e) => Err(e),
        },
        FunctionCode::MaskWriteRegister => {
            if n < 3 {
                return Err(truncation(3, n));
            }
            if n < 5 {
                return Err(truncation(5, n));
            }
            match check_exact(p, 7) {
                Some(e) => Err(e),
                None => Ok(ResponsePdu::MaskWriteRegister {
                    address: Address(read_u16(p, 1)),
                    and_mask: Mask(read_u16(p, 3)),
                    or_mask: Mask(read_u16(p, 5)),
                }),
            }
        },
        FunctionCode::ReadWriteMultipleRegisters => match counted_registers(p) {
            Ok(registers) => Ok(ResponsePdu::ReadWriteMultipleRegisters { registers }),
            Err(e) => Err(e),
        },
        FunctionCode::ReadFifoQueue => fifo(p),
        FunctionCode::EncapsulatedInterfaceTransport => match mei::decode_response(p) {
            Ok(m) => Ok(ResponsePdu::EncapsulatedInterfaceTransport(m)),
            Err(e) => Err(e),
        },
        FunctionCode::Custom(code) => Ok(ResponsePdu::Custom { code, data: rest_after_code(p) }),
    }
}

impl RequestPdu {
    /// Decode a request PDU.
    ///
    /// Ranges and the PDU size limit are checked here as well as on encode,
    /// so whatever decodes re-encodes identically.
    pub fn decode(pdu: &[u8]) -> (r: Result<Self>)
        ensures
            request_result(r) == spec_decode_request(pdu@),
    {
        if pdu.len() > MAX_PDU_LEN {
            return Err(Error::PduTooLarge { len: pdu.len(), max: MAX_PDU_LEN });
        }
        if pdu.len() < 1 {
            return Err(truncation(1, 0));
        }
        match FunctionCode::decode(pdu[0]) {
            Ok(fc) => decode_request_body(fc, pdu),
            Err(e) => Err(e),
        }
    }
}

impl ResponsePdu {
    /// Decode a response PDU. One longer than the encoder would emit is
    /// refused; a first byte with its high bit set is an exception response.
    pub fn decode(pdu: &[u8]) -> (r: Result<Self>)
        ensures
            response_result(r) == spec_decode_response(pdu@),
    {
        if pdu.len() > MAX_PDU_LEN {
            return Err(Error::PduTooLarge { len: pdu.len(), max: MAX_PDU_LEN });
        }
        if pdu.len() >= 1 && pdu[0] >= 0x80 {
            return match ExceptionResponse::decode(pdu) {
                Ok(x) => Ok(ResponsePdu::Exception(x)),
                Err(e) => Err(e),
            };
        }
        if pdu.len() < 1 {
            return Err(truncation(1, 0));
        }
        match FunctionCode::decode(pdu[0]) {
            Ok(fc) => decode_response_body(fc, pdu),
            Err(e) => Err(e),
        }
    }
}

} // verus!
