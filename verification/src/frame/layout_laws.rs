//! The wire layout Modbus fixes, stated byte by byte: which byte goes where,
//! in which order, with which fixed value. The round-trip laws hold of any
//! layout an encoder and a decoder agree on; these pin the one Modbus uses.

use vstd::prelude::*;

use crate::error::Error;
use crate::frame::ascii::{byte_sum, spec_lrc, Ascii};
use crate::frame::framing::{spec_apply_length, spec_is_self_locating, AduBoundary, ExtentRule, Framing, LengthRule};
use crate::frame::pdu_model::RequestModel;
use crate::frame::pdu_spec::spec_encode_request;
use crate::frame::roundtrip::lemma_bits_redecode;
use crate::frame::rtu::{crc16_modbus, spec_rtu_wrap, Rtu, RtuOverTcp};
use crate::frame::tcp::{spec_tcp_wrap, MbapHeader, Tcp};
use crate::frame::value::{Address, Quantity, RegisterValue, UnitId};
use crate::frame::wire::{pack_bits, u16_at, unpack_bits};

verus! {

/// A single write is the function code, the address high byte first, then
/// the value high byte first; a coil is written `FF 00` for on and `00 00`
/// for off.
pub proof fn lemma_single_write_bytes(a: Address, on: bool, v: RegisterValue)
    ensures
        spec_encode_request(RequestModel::WriteSingleCoil { address: a, value: on }) == Ok::<Seq<u8>, Error>(
            seq![5u8, (a.0 / 256) as u8, (a.0 % 256) as u8, if on { 0xFFu8 } else { 0u8 }, 0u8],
        ),
        spec_encode_request(RequestModel::WriteSingleRegister { address: a, value: v }) == Ok::<Seq<u8>, Error>(
            seq![6u8, (a.0 / 256) as u8, (a.0 % 256) as u8, (v.0 / 256) as u8, (v.0 % 256) as u8],
        ),
{
    let coil = spec_encode_request(RequestModel::WriteSingleCoil { address: a, value: on })->Ok_0;
    assert(coil =~= seq![5u8, (a.0 / 256) as u8, (a.0 % 256) as u8, if on { 0xFFu8 } else { 0u8 }, 0u8]);
    let reg = spec_encode_request(RequestModel::WriteSingleRegister { address: a, value: v })->Ok_0;
    assert(reg =~= seq![6u8, (a.0 / 256) as u8, (a.0 % 256) as u8, (v.0 / 256) as u8, (v.0 % 256) as u8]);
}

/// A read request is the function code, the starting address and the
/// quantity, both high byte first. Coils and discrete inputs are read 1 to
/// 2000 at a time, registers 1 to 125; any other quantity is refused.
pub proof fn lemma_read_request_bytes(a: Address, q: Quantity)
    ensures
        (spec_encode_request(RequestModel::ReadCoils { address: a, quantity: q }) is Ok) == (1 <= q.0 <= 2000),
        (spec_encode_request(RequestModel::ReadDiscreteInputs { address: a, quantity: q }) is Ok) == (1 <= q.0
            <= 2000),
        (spec_encode_request(RequestModel::ReadHoldingRegisters { address: a, quantity: q }) is Ok) == (1 <= q.0
            <= 125),
        (spec_encode_request(RequestModel::ReadInputRegisters { address: a, quantity: q }) is Ok) == (1 <= q.0
            <= 125),
        1 <= q.0 <= 125 ==> spec_encode_request(RequestModel::ReadHoldingRegisters { address: a, quantity: q })
            == Ok::<Seq<u8>, Error>(
            seq![3u8, (a.0 / 256) as u8, (a.0 % 256) as u8, (q.0 / 256) as u8, (q.0 % 256) as u8],
        ),
        1 <= q.0 <= 2000 ==> spec_encode_request(RequestModel::ReadCoils { address: a, quantity: q })
            == Ok::<Seq<u8>, Error>(
            seq![1u8, (a.0 / 256) as u8, (a.0 % 256) as u8, (q.0 / 256) as u8, (q.0 % 256) as u8],
        ),
{
    if 1 <= q.0 <= 125 {
        let r = spec_encode_request(RequestModel::ReadHoldingRegisters { address: a, quantity: q })->Ok_0;
        assert(r =~= seq![3u8, (a.0 / 256) as u8, (a.0 % 256) as u8, (q.0 / 256) as u8, (q.0 % 256) as u8]);
    }
    if 1 <= q.0 <= 2000 {
        let r = spec_encode_request(RequestModel::ReadCoils { address: a, quantity: q })->Ok_0;
        assert(r =~= seq![1u8, (a.0 / 256) as u8, (a.0 % 256) as u8, (q.0 / 256) as u8, (q.0 % 256) as u8]);
    }
}

/// The MBAP header: transaction identifier high byte first, protocol
/// identifier 0, a length counting the unit identifier and the PDU, high
/// byte first, then the unit identifier.
pub proof fn lemma_mbap_bytes(h: MbapHeader, pdu: Seq<u8>)
    requires
        1 <= pdu.len() <= 253,
    ensures
        spec_tcp_wrap(h, pdu) == Ok::<Seq<u8>, Error>(
            seq![
                (h.transaction_id.0 / 256) as u8,
                (h.transaction_id.0 % 256) as u8,
                0u8,
                0u8,
                ((pdu.len() + 1) / 256) as u8,
                ((pdu.len() + 1) % 256) as u8,
                h.unit_id.0,
            ] + pdu,
        ),
{
    let b = spec_tcp_wrap(h, pdu)->Ok_0;
    assert(b =~= seq![
        (h.transaction_id.0 / 256) as u8,
        (h.transaction_id.0 % 256) as u8,
        0u8,
        0u8,
        ((pdu.len() + 1) / 256) as u8,
        ((pdu.len() + 1) % 256) as u8,
        h.unit_id.0,
    ] + pdu);
}

/// An RTU ADU is the address, the PDU, and the CRC-16/MODBUS of both, low
/// byte first.
pub proof fn lemma_rtu_bytes(a: UnitId, pdu: Seq<u8>)
    ensures
        spec_rtu_wrap(a, pdu) == seq![a.0] + pdu + seq![
            (crc16_modbus(seq![a.0] + pdu) % 256) as u8,
            (crc16_modbus(seq![a.0] + pdu) / 256) as u8,
        ],
{
    assert(spec_rtu_wrap(a, pdu) =~= seq![a.0] + pdu + seq![
        (crc16_modbus(seq![a.0] + pdu) % 256) as u8,
        (crc16_modbus(seq![a.0] + pdu) / 256) as u8,
    ]);
}

/// The LRC is what brings the 8-bit sum of the bytes it covers to zero.
pub proof fn lemma_lrc_sums_to_zero(s: Seq<u8>)
    ensures
        (byte_sum(s) + spec_lrc(s)) % 256 == 0,
        spec_lrc(s) < 256,
{
}

/// Bits are packed least significant first: bit `i` is bit `i mod 8` of
/// byte `i / 8`, and the packing takes as many bytes as eight bits need.
pub proof fn lemma_bit_order(bits: Seq<bool>, i: int)
    requires
        0 <= i < bits.len(),
    ensures
        pack_bits(bits).len() == (bits.len() + 7) / 8,
        ((pack_bits(bits)[i / 8] >> ((i % 8) as u8)) & 1u8 == 1u8) == bits[i],
{
    lemma_bits_redecode(bits);
    assert(unpack_bits(pack_bits(bits)).take(bits.len() as int)[i] == bits[i]);
}

/// Where each framing's ADU ends. TCP reads the six bytes up to and
/// including the MBAP length, and the ADU is those six plus the length; a
/// length of 1 to 254 is accepted and any other refused before it sizes
/// anything. RTU on a serial line ends at silence; RTU over a stream ends
/// where its content says, from four bytes on. ASCII runs from ':' to CR LF.
/// Silence and delimiters are on the wire; a length is not.
pub proof fn lemma_boundaries(prefix: Seq<u8>)
    requires
        prefix.len() >= 6,
    ensures
        Tcp::spec_boundary() == (AduBoundary::Prefixed { prefix: 6, total: LengthRule::MbapLength }),
        (1 <= u16_at(prefix, 4) <= 254) ==> spec_apply_length(LengthRule::MbapLength, prefix) == Ok::<
            usize,
            Error,
        >((6 + u16_at(prefix, 4)) as usize),
        !(1 <= u16_at(prefix, 4) <= 254) ==> spec_apply_length(LengthRule::MbapLength, prefix) is Err,
        Rtu::spec_boundary() is Silence,
        RtuOverTcp::spec_boundary() == (AduBoundary::ContentLength { min: 4, extent: ExtentRule::RtuPdu }),
        Ascii::spec_boundary() matches AduBoundary::Delimited { start, end } && start == 0x3Au8 && end@ == seq![
            0x0Du8,
            0x0Au8,
        ],
        !spec_is_self_locating(Tcp::spec_boundary()),
        !spec_is_self_locating(RtuOverTcp::spec_boundary()),
        spec_is_self_locating(Rtu::spec_boundary()),
        spec_is_self_locating(Ascii::spec_boundary()),
{
    let b = Ascii::spec_boundary();
    if let AduBoundary::Delimited { start, end } = b {
        assert(end@ =~= seq![0x0Du8, 0x0Au8]);
    }
}

} // verus!
