//! TCP framing: the MBAP header.

use vstd::prelude::*;
use vstd::slice::slice_subrange;

use crate::error::{Error, Result};
use crate::frame::framing::{AduBoundary, Framing, LengthRule, framed_request, framed_response, request_adu, request_from_adu, response_adu, response_from_adu};
use crate::frame::pdu_model::{RequestPdu, ResponsePdu};
use crate::frame::pdu_spec::MAX_PDU_LEN;
use crate::frame::value::{TransactionId, UnitId};
use crate::frame::wire::{be16, push_bytes, push_u16, read_u16, u16_at};

verus! {

/// What identifies a peer and a transaction over TCP.
///
/// The protocol identifier is not a field: it is fixed at 0, so carrying it
/// would let a caller build a header the encoder must reject. The length field
/// is not one either: it is derived from the PDU.
#[derive(Debug, Clone, Copy, PartialEq, Eq, Structural)]
pub struct MbapHeader {
    /// Echoed back by the server, so a client can match a response to the
    /// request it answers.
    pub transaction_id: TransactionId,
    /// Identifies the target device behind a gateway.
    pub unit_id: UnitId,
}

/// TCP framing.
#[derive(Debug, Clone, Copy, PartialEq, Eq, Structural)]
pub struct Tcp;

/// Largest TCP ADU: 7 bytes of header and 253 of PDU.
pub const TCP_MAX_ADU_LEN: usize = 260;

/// Bytes in an MBAP header.
pub const HEADER_LEN: usize = 7;

/// Bytes needed before the MBAP length field has been read in full.
pub const LENGTH_PREFIX_LEN: usize = 6;

/// Bounds on the MBAP length field: one unit identifier and a PDU of 1 to 253
/// bytes.
pub const MIN_LENGTH: u32 = 1;

/// Upper bound on the MBAP length field.
pub const MAX_LENGTH: u32 = 254;

/// The error an MBAP length field outside its bounds yields.
pub open spec fn mbap_length_error(length: u32) -> Error {
    Error::OutOfRange { field: "MBAP length", value: length, min: MIN_LENGTH, max: MAX_LENGTH }
}

/// Whether an MBAP length field is within its bounds.
pub open spec fn length_ok(length: int) -> bool {
    MIN_LENGTH <= length <= MAX_LENGTH
}

/// The seven header bytes: transaction, protocol 0, length, unit.
pub open spec fn mbap_bytes(header: MbapHeader, length: u16) -> Seq<u8> {
    be16(header.transaction_id.0) + be16(0) + be16(length) + seq![header.unit_id.0]
}

/// The ADU that carries `pdu`: the length counts the unit identifier and the
/// PDU.
pub open spec fn spec_tcp_wrap(header: MbapHeader, pdu: Seq<u8>) -> Result<Seq<u8>> {
    let length = pdu.len() + 1;
    if length > MAX_LENGTH {
        Err(mbap_length_error(if length > 0xFFFF { 0xFFFFu32 } else { length as u32 }))
    } else {
        Ok(mbap_bytes(header, length as u16) + pdu)
    }
}

/// The header and PDU of a TCP ADU: size, then protocol identifier, then the
/// length field's range, then its agreement with the bytes supplied.
pub open spec fn spec_tcp_split(b: Seq<u8>) -> Result<(MbapHeader, Seq<u8>)> {
    if b.len() > TCP_MAX_ADU_LEN {
        Err(Error::AduTooLarge { len: b.len() as usize, max: TCP_MAX_ADU_LEN })
    } else if b.len() < HEADER_LEN + 1 {
        Err(Error::Truncated { expected: (HEADER_LEN + 1) as usize, supplied: b.len() as usize })
    } else if u16_at(b, 2) != 0 {
        Err(Error::ProtocolIdentifier(u16_at(b, 2)))
    } else if !length_ok(u16_at(b, 4) as int) {
        Err(mbap_length_error(u16_at(b, 4) as u32))
    } else if u16_at(b, 4) != b.len() - 6 {
        Err(Error::InvalidLength { expected: u16_at(b, 4) as usize, actual: (b.len() - 6) as usize })
    } else {
        Ok((MbapHeader { transaction_id: TransactionId(u16_at(b, 0)), unit_id: UnitId(b[6]) }, b.subrange(7, b.len() as int)))
    }
}

/// The whole ADU's length given its first six bytes.
pub open spec fn spec_adu_len(prefix: Seq<u8>) -> Result<usize> {
    if prefix.len() < LENGTH_PREFIX_LEN {
        Err(Error::Truncated { expected: LENGTH_PREFIX_LEN, supplied: prefix.len() as usize })
    } else if !length_ok(u16_at(prefix, 4) as int) {
        Err(mbap_length_error(u16_at(prefix, 4) as u32))
    } else {
        Ok((LENGTH_PREFIX_LEN + u16_at(prefix, 4)) as usize)
    }
}

/// Reject an MBAP length field outside the range it may take.
fn check_length(length: u32) -> (r: Result<()>)
    ensures
        r == (if length_ok(length as int) { Ok::<(), Error>(()) } else { Err(mbap_length_error(length)) }),
{
    if length < MIN_LENGTH || length > MAX_LENGTH {
        return Err(Error::OutOfRange { field: "MBAP length", value: length, min: MIN_LENGTH, max: MAX_LENGTH });
    }
    Ok(())
}

/// The whole ADU's length, given the first six bytes of it. The length field
/// is validated first, so a hostile value can never size a read.
pub fn adu_len(prefix: &[u8]) -> (r: Result<usize>)
    ensures
        r == spec_adu_len(prefix@),
{
    if prefix.len() < LENGTH_PREFIX_LEN {
        return Err(Error::Truncated { expected: LENGTH_PREFIX_LEN, supplied: prefix.len() });
    }
    let length = read_u16(prefix, 4) as u32;
    match check_length(length) {
        Ok(()) => {},
        Err(e) => return Err(e),
    }
    Ok(LENGTH_PREFIX_LEN + length as usize)
}

/// Validate an MBAP header and split the ADU into that header and its PDU.
pub fn split(bytes: &[u8]) -> (r: Result<(MbapHeader, &[u8])>)
    ensures
        match r {
            Ok((h, p)) => spec_tcp_split(bytes@) == Ok::<(MbapHeader, Seq<u8>), Error>((h, p@)),
            Err(e) => spec_tcp_split(bytes@) == Err::<(MbapHeader, Seq<u8>), Error>(e),
        },
{
    if bytes.len() > TCP_MAX_ADU_LEN {
        return Err(Error::AduTooLarge { len: bytes.len(), max: TCP_MAX_ADU_LEN });
    }
    if bytes.len() < HEADER_LEN + 1 {
        return Err(Error::Truncated { expected: HEADER_LEN + 1, supplied: bytes.len() });
    }
    let protocol = read_u16(bytes, 2);
    if protocol != 0 {
        return Err(Error::ProtocolIdentifier(protocol));
    }
    let length = read_u16(bytes, 4) as u32;
    match check_length(length) {
        Ok(()) => {},
        Err(e) => return Err(e),
    }
    let supplied = bytes.len() - 6;
    if length as usize != supplied {
        return Err(Error::InvalidLength { expected: length as usize, actual: supplied });
    }
    let header = MbapHeader { transaction_id: TransactionId(read_u16(bytes, 0)), unit_id: UnitId(bytes[6]) };
    Ok((header, slice_subrange(bytes, HEADER_LEN, bytes.len())))
}

/// Prepend an MBAP header to an encoded PDU, appending both to `out`. The
/// length field is computed here, so it cannot disagree with the PDU.
fn wrap_into(header: &MbapHeader, pdu: &[u8], out: &mut Vec<u8>) -> (r: Result<()>)
    ensures
        match r {
            Ok(()) => spec_tcp_wrap(*header, pdu@) matches Ok(b) && final(out)@ == old(out)@ + b,
            Err(e) => spec_tcp_wrap(*header, pdu@) == Err::<Seq<u8>, Error>(e) && final(out)@ == old(out)@,
        },
{
    let length: usize = if pdu.len() < 0xFFFF { pdu.len() + 1 } else { 0xFFFF };
    if length > MAX_LENGTH as usize {
        return Err(Error::OutOfRange { field: "MBAP length", value: length as u32, min: MIN_LENGTH, max: MAX_LENGTH });
    }
    push_u16(out, header.transaction_id.0);
    push_u16(out, 0);
    push_u16(out, length as u16);
    out.push(header.unit_id.0);
    push_bytes(out, pdu);
    proof {
        assert(final(out)@ =~= old(out)@ + (mbap_bytes(*header, length as u16) + pdu@));
    }
    Ok(())
}

impl Framing for Tcp {
    type Header = MbapHeader;

    const MAX_ADU_LEN: usize = 260;

    open spec fn spec_wrap(header: MbapHeader, pdu: Seq<u8>) -> Result<Seq<u8>> {
        spec_tcp_wrap(header, pdu)
    }

    open spec fn spec_boundary() -> AduBoundary {
        AduBoundary::Prefixed { prefix: LENGTH_PREFIX_LEN, total: LengthRule::MbapLength }
    }

    open spec fn spec_split(adu: Seq<u8>) -> Result<(MbapHeader, Seq<u8>)> {
        spec_tcp_split(adu)
    }

    fn decode_request(bytes: &[u8]) -> (r: Result<(MbapHeader, RequestPdu)>) {
        match split(bytes) {
            Err(e) => Err(e),
            Ok((header, pdu)) => match RequestPdu::decode(pdu) {
                Ok(p) => Ok((header, p)),
                Err(e) => Err(e),
            },
        }
    }

    fn encode_request_into(header: &MbapHeader, pdu: &RequestPdu, out: &mut Vec<u8>) -> (r: Result<()>) {
        out.reserve(TCP_MAX_ADU_LEN);
        match pdu.encode() {
            Ok(body) => wrap_into(header, body.as_slice(), out),
            Err(e) => Err(e),
        }
    }

    fn decode_response(bytes: &[u8]) -> (r: Result<(MbapHeader, ResponsePdu)>) {
        match split(bytes) {
            Err(e) => Err(e),
            Ok((header, pdu)) => match ResponsePdu::decode(pdu) {
                Ok(p) => Ok((header, p)),
                Err(e) => Err(e),
            },
        }
    }

    fn encode_response_into(header: &MbapHeader, pdu: &ResponsePdu, out: &mut Vec<u8>) -> (r: Result<()>) {
        out.reserve(TCP_MAX_ADU_LEN);
        match pdu.encode() {
            Ok(body) => wrap_into(header, body.as_slice(), out),
            Err(e) => Err(e),
        }
    }

    /// The MBAP length field gives the rest of the ADU, so six bytes are
    /// enough to know how long the whole of it is.
    fn boundary() -> (b: AduBoundary) {
        AduBoundary::Prefixed { prefix: LENGTH_PREFIX_LEN, total: LengthRule::MbapLength }
    }
}

/// Splitting an ADU and wrapping its PDU again behind its header gives back
/// the ADU, and the PDU it carried is within the PDU size limit.
pub proof fn lemma_tcp_split_rewraps(b: Seq<u8>)
    requires
        spec_tcp_split(b) is Ok,
    ensures
        spec_tcp_split(b)->Ok_0.1.len() <= MAX_PDU_LEN,
        spec_tcp_wrap(spec_tcp_split(b)->Ok_0.0, spec_tcp_split(b)->Ok_0.1) == Ok::<Seq<u8>, Error>(b),
{
    let (h, p) = spec_tcp_split(b)->Ok_0;
    crate::frame::reencode::lemma_be16_u16_at(b, 0);
    crate::frame::reencode::lemma_be16_u16_at(b, 2);
    crate::frame::reencode::lemma_be16_u16_at(b, 4);
    assert(p.len() + 1 == u16_at(b, 4));
    assert(mbap_bytes(h, (p.len() + 1) as u16) + p =~= b);
}

/// Wrapping a PDU of 1 to 253 bytes and splitting the ADU gives back the
/// header and the PDU; the ADU is within the framing's maximum.
pub proof fn lemma_tcp_wrap_splits(h: MbapHeader, p: Seq<u8>)
    requires
        1 <= p.len() <= MAX_PDU_LEN,
    ensures
        spec_tcp_wrap(h, p) is Ok,
        spec_tcp_wrap(h, p)->Ok_0.len() <= TCP_MAX_ADU_LEN,
        spec_tcp_split(spec_tcp_wrap(h, p)->Ok_0) == Ok::<(MbapHeader, Seq<u8>), Error>((h, p)),
{
    let b = spec_tcp_wrap(h, p)->Ok_0;
    let length = (p.len() + 1) as u16;
    assert(b == mbap_bytes(h, length) + p);
    assert(u16_at(b, 0) == h.transaction_id.0);
    assert(u16_at(b, 2) == 0);
    assert(u16_at(b, 4) == length);
    assert(b[6] == h.unit_id.0);
    assert(b.subrange(7, b.len() as int) =~= p);
}

} // verus!
