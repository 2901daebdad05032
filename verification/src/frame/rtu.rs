//! RTU framing: address, PDU, CRC-16, and the rule that finds an RTU ADU's
//! end on a byte stream that has no silences to go by.

use vstd::prelude::*;
use vstd::slice::slice_subrange;

use crate::error::{Error, Result};
use crate::frame::framing::{AduBoundary, Direction, Extent, ExtentRule, Framing};
use crate::frame::pdu_model::{RequestPdu, ResponsePdu};
use crate::frame::value::UnitId;
use crate::frame::pdu_spec::{spec_encode_request, spec_encode_response};
use crate::frame::wire::u16_at;

verus! {

/// One bit of the CRC register shifted out: reflected polynomial `0xA001`.
pub open spec fn crc_shift(crc: u16) -> u16 {
    if crc & 1 == 1 {
        (crc >> 1u16) ^ 0xA001u16
    } else {
        crc >> 1u16
    }
}

/// The CRC register after `bits` more bit shifts.
pub open spec fn crc_shifts(crc: u16, bits: nat) -> u16
    decreases bits,
{
    if bits == 0 {
        crc
    } else {
        crc_shifts(crc_shift(crc), (bits - 1) as nat)
    }
}

/// The CRC register after one more byte: the byte enters the low eight bits,
/// and eight bits are shifted out.
pub open spec fn crc_byte(crc: u16, byte: u8) -> u16 {
    crc_shifts(crc ^ (byte as u16), 8)
}

/// The CRC-16/MODBUS checksum of a byte sequence: initial value `0xFFFF`,
/// each byte in turn, reflected polynomial `0xA001`, nothing applied after.
#[verifier::opaque]
pub open spec fn crc16_modbus(bytes: Seq<u8>) -> u16
    decreases bytes.len(),
{
    if bytes.len() == 0 {
        0xFFFFu16
    } else {
        crc_byte(crc16_modbus(bytes.drop_last()), bytes.last())
    }
}

/// Computes the CRC with the `crc` crate's `Crc::<u16>::checksum` over the
/// `CRC_16_MODBUS` parameters (polynomial `0x8005` reflected, initial value
/// `0xFFFF`, no final XOR). The contract claims that the result is the
/// CRC-16/MODBUS of exactly the bytes handed over, as [`crc16_modbus`]
/// defines it.
#[verifier::external_body]
fn crc16(bytes: &[u8]) -> (r: u16)
    ensures
        r == crc16_modbus(bytes@),
{
    crc::Crc::<u16>::new(&crc::CRC_16_MODBUS).checksum(bytes)
}

/// RTU framing: the ADU ends when the line falls silent.
#[derive(Debug, Clone, Copy, PartialEq, Eq, Structural)]
pub struct Rtu;

/// RTU framing over a byte stream: the same bytes as RTU, with the boundary
/// derived from the PDU rather than from silence.
#[derive(Debug, Clone, Copy, PartialEq, Eq, Structural)]
pub struct RtuOverTcp;

/// Largest RTU ADU: address, 253 bytes of PDU, CRC.
pub const RTU_MAX_ADU_LEN: usize = 256;

/// Bytes an RTU ADU carries besides its PDU: the address and the CRC.
pub const OVERHEAD: usize = 3;

/// The fewest bytes from which an extent can be asked for.
pub const EXTENT_MIN: usize = 4;

/// A 16-bit value as two bytes, least significant first.
pub open spec fn le16(v: u16) -> Seq<u8> {
    seq![(v % 256) as u8, (v / 256) as u8]
}

/// The little-endian 16-bit value at `i`.
pub open spec fn le16_at(b: Seq<u8>, i: int) -> u16 {
    (b[i] as int + 256 * b[i + 1] as int) as u16
}

/// The ADU that carries `pdu` for `address`: the CRC covers the address and
/// the PDU, and goes out low byte first.
pub open spec fn spec_rtu_wrap(address: UnitId, pdu: Seq<u8>) -> Seq<u8> {
    let covered = seq![address.0] + pdu;
    covered + le16(crc16_modbus(covered))
}

/// The address and PDU of an ADU, given the CRC computed over everything but
/// its last two bytes: size first, then the checksum.
pub open spec fn spec_split_with_crc(b: Seq<u8>, computed: u16) -> Result<(UnitId, Seq<u8>)> {
    if b.len() > RTU_MAX_ADU_LEN {
        Err(Error::AduTooLarge { len: b.len() as usize, max: RTU_MAX_ADU_LEN })
    } else if b.len() < OVERHEAD + 1 {
        Err(Error::Truncated { expected: (OVERHEAD + 1) as usize, supplied: b.len() as usize })
    } else if computed != le16_at(b, b.len() - 2) {
        Err(Error::Checksum { expected: computed, actual: le16_at(b, b.len() - 2) })
    } else {
        Ok((UnitId(b[0]), b.subrange(1, b.len() - 2)))
    }
}

/// The address and PDU of an ADU.
pub open spec fn spec_rtu_split(b: Seq<u8>) -> Result<(UnitId, Seq<u8>)> {
    spec_split_with_crc(b, crc16_modbus(b.subrange(0, b.len() - 2)))
}

/// Check an ADU's size and its CRC against `computed`, the CRC of all but its
/// last two bytes, and split it into its address and its PDU.
pub fn split_with_crc(bytes: &[u8], computed: u16) -> (r: Result<(UnitId, &[u8])>)
    ensures
        match r {
            Ok((a, p)) => spec_split_with_crc(bytes@, computed) == Ok::<(UnitId, Seq<u8>), Error>((a, p@)),
            Err(e) => spec_split_with_crc(bytes@, computed) == Err::<(UnitId, Seq<u8>), Error>(e),
        },
{
    if bytes.len() > RTU_MAX_ADU_LEN {
        return Err(Error::AduTooLarge { len: bytes.len(), max: RTU_MAX_ADU_LEN });
    }
    if bytes.len() < OVERHEAD + 1 {
        return Err(Error::Truncated { expected: OVERHEAD + 1, supplied: bytes.len() });
    }
    let n = bytes.len();
    let actual: u16 = bytes[n - 2] as u16 + 256 * (bytes[n - 1] as u16);
    if computed != actual {
        return Err(Error::Checksum { expected: computed, actual });
    }
    Ok((UnitId(bytes[0]), slice_subrange(bytes, 1, n - 2)))
}

/// Check an ADU's size and CRC, and split it into its address and its PDU.
/// The CRC is checked before the PDU is looked at, so a corrupted frame never
/// reaches the PDU decoder.
pub fn split(bytes: &[u8]) -> (r: Result<(UnitId, &[u8])>)
    ensures
        match r {
            Ok((a, p)) => spec_rtu_split(bytes@) == Ok::<(UnitId, Seq<u8>), Error>((a, p@)),
            Err(e) => spec_rtu_split(bytes@) == Err::<(UnitId, Seq<u8>), Error>(e),
        },
{
    if bytes.len() > RTU_MAX_ADU_LEN {
        return Err(Error::AduTooLarge { len: bytes.len(), max: RTU_MAX_ADU_LEN });
    }
    if bytes.len() < OVERHEAD + 1 {
        return Err(Error::Truncated { expected: OVERHEAD + 1, supplied: bytes.len() });
    }
    let computed = crc16(slice_subrange(bytes, 0, bytes.len() - 2));
    split_with_crc(bytes, computed)
}

/// Close an ADU written in place: `out` holds, from `start`, the address and
/// the PDU; their CRC follows, low byte first.
fn seal_with_crc(out: &mut Vec<u8>, start: usize, address: UnitId, pdu: Ghost<Seq<u8>>)
    requires
        start <= old(out)@.len(),
        old(out)@.skip(start as int) == seq![address.0] + pdu@,
    ensures
        final(out)@ == old(out)@.take(start as int) + spec_rtu_wrap(address, pdu@),
{
    let crc = crc16(slice_subrange(out.as_slice(), start, out.len()));
    proof {
        assert(out@.subrange(start as int, out@.len() as int) =~= out@.skip(start as int));
    }
    out.push((crc % 256) as u8);
    out.push((crc / 256) as u8);
    proof {
        assert(out@ =~= old(out)@.take(start as int) + spec_rtu_wrap(address, pdu@));
    }
}

impl Framing for Rtu {
    type Header = UnitId;

    const MAX_ADU_LEN: usize = 256;

    open spec fn spec_wrap(header: UnitId, pdu: Seq<u8>) -> Result<Seq<u8>> {
        Ok(spec_rtu_wrap(header, pdu))
    }

    open spec fn spec_boundary() -> AduBoundary {
        AduBoundary::Silence
    }

    open spec fn spec_split(adu: Seq<u8>) -> Result<(UnitId, Seq<u8>)> {
        spec_rtu_split(adu)
    }

    fn decode_request(bytes: &[u8]) -> (r: Result<(UnitId, RequestPdu)>) {
        match split(bytes) {
            Err(e) => Err(e),
            Ok((address, pdu)) => match RequestPdu::decode(pdu) {
                Ok(p) => Ok((address, p)),
                Err(e) => Err(e),
            },
        }
    }

    /// Written in place behind one reservation: address, then the PDU, then
    /// the CRC over both. A PDU that does not encode leaves `out` as it was.
    fn encode_request_into(header: &UnitId, pdu: &RequestPdu, out: &mut Vec<u8>) -> (r: Result<()>) {
        out.reserve(RTU_MAX_ADU_LEN);
        let start = out.len();
        out.push(header.0);
        match pdu.encode_into(out) {
            Ok(()) => {
                let ghost body = spec_encode_request(pdu@)->Ok_0;
                proof {
                    assert(out@.skip(start as int) =~= seq![header.0] + body);
                    assert(old(out)@ =~= out@.take(start as int));
                }
                seal_with_crc(out, start, *header, Ghost(body));
                Ok(())
            },
            Err(e) => {
                out.truncate(start);
                proof {
                    assert(out@ =~= old(out)@);
                }
                Err(e)
            },
        }
    }

    fn decode_response(bytes: &[u8]) -> (r: Result<(UnitId, ResponsePdu)>) {
        match split(bytes) {
            Err(e) => Err(e),
            Ok((address, pdu)) => match ResponsePdu::decode(pdu) {
                Ok(p) => Ok((address, p)),
                Err(e) => Err(e),
            },
        }
    }

    /// Written in place behind one reservation: address, then the PDU, then
    /// the CRC over both. A PDU that does not encode leaves `out` as it was.
    fn encode_response_into(header: &UnitId, pdu: &ResponsePdu, out: &mut Vec<u8>) -> (r: Result<()>) {
        out.reserve(RTU_MAX_ADU_LEN);
        let start = out.len();
        out.push(header.0);
        match pdu.encode_into(out) {
            Ok(()) => {
                let ghost body = spec_encode_response(pdu@)->Ok_0;
                proof {
                    assert(out@.skip(start as int) =~= seq![header.0] + body);
                    assert(old(out)@ =~= out@.take(start as int));
                }
                seal_with_crc(out, start, *header, Ghost(body));
                Ok(())
            },
            Err(e) => {
                out.truncate(start);
                proof {
                    assert(out@ =~= old(out)@);
                }
                Err(e)
            },
        }
    }

    /// An RTU ADU carries neither a length nor a delimiter, so only silence
    /// on the line ends one.
    fn boundary() -> (b: AduBoundary) {
        AduBoundary::Silence
    }
}

impl Framing for RtuOverTcp {
    type Header = UnitId;

    const MAX_ADU_LEN: usize = 256;

    open spec fn spec_wrap(header: UnitId, pdu: Seq<u8>) -> Result<Seq<u8>> {
        Ok(spec_rtu_wrap(header, pdu))
    }

    open spec fn spec_boundary() -> AduBoundary {
        AduBoundary::ContentLength { min: EXTENT_MIN, extent: ExtentRule::RtuPdu }
    }

    open spec fn spec_split(adu: Seq<u8>) -> Result<(UnitId, Seq<u8>)> {
        spec_rtu_split(adu)
    }

    fn decode_request(bytes: &[u8]) -> (r: Result<(UnitId, RequestPdu)>) {
        Rtu::decode_request(bytes)
    }

    fn encode_request_into(header: &UnitId, pdu: &RequestPdu, out: &mut Vec<u8>) -> (r: Result<()>) {
        Rtu::encode_request_into(header, pdu, out)
    }

    fn decode_response(bytes: &[u8]) -> (r: Result<(UnitId, ResponsePdu)>) {
        Rtu::decode_response(bytes)
    }

    fn encode_response_into(header: &UnitId, pdu: &ResponsePdu, out: &mut Vec<u8>) -> (r: Result<()>) {
        Rtu::encode_response_into(header, pdu, out)
    }

    /// The boundary is derived from the PDU the ADU carries, in the direction
    /// it travels.
    fn boundary() -> (b: AduBoundary) {
        AduBoundary::ContentLength { min: EXTENT_MIN, extent: ExtentRule::RtuPdu }
    }
}

// ---------------------------------------------------------------------------
// The extent of an RTU ADU on a byte stream.

/// How long a PDU is, as far as the bytes in hand tell.
pub enum PduLen {
    /// More bytes are needed before the length is known.
    Need,
    /// The PDU is this long.
    Len(int),
    /// The length is not derivable from the bytes at all.
    Indeterminate,
}

/// A request whose PDU length is fixed by its function code alone.
pub open spec fn fixed_request_len(fc: u8) -> Option<int> {
    if 1 <= fc <= 6 {
        Some(5)
    } else if fc == 7 || fc == 0x0B || fc == 0x0C || fc == 0x11 {
        Some(1)
    } else if fc == 0x16 {
        Some(7)
    } else if fc == 0x18 {
        Some(3)
    } else {
        None
    }
}

/// A request's PDU length, given the ADU bytes in hand (at least four).
pub open spec fn request_pdu_len(b: Seq<u8>) -> PduLen {
    let fc = b[1];
    if fixed_request_len(fc) is Some {
        PduLen::Len(fixed_request_len(fc)->0)
    } else if fc == 0x0F || fc == 0x10 {
        if b.len() < 8 { PduLen::Need } else { PduLen::Len(6 + b[6]) }
    } else if fc == 0x14 || fc == 0x15 {
        PduLen::Len(2 + b[2])
    } else if fc == 0x17 {
        if b.len() < 11 { PduLen::Need } else { PduLen::Len(10 + b[10]) }
    } else if fc == 0x2B && b[2] == 0x0E {
        PduLen::Len(4)
    } else {
        PduLen::Indeterminate
    }
}

/// A response whose PDU length is fixed by its function code alone.
pub open spec fn fixed_response_len(fc: u8) -> Option<int> {
    if fc == 5 || fc == 6 || fc == 0x0F || fc == 0x10 || fc == 0x0B {
        Some(5)
    } else if fc == 7 {
        Some(2)
    } else if fc == 0x16 {
        Some(7)
    } else {
        None
    }
}

/// A response code whose PDU carries a byte count as its second byte.
pub open spec fn counted_response(fc: u8) -> bool {
    (1 <= fc <= 4) || fc == 0x0C || fc == 0x11 || fc == 0x14 || fc == 0x15 || fc == 0x17
}

/// Where the object list of a device identification response ends, walking
/// `remaining` objects from PDU offset `offset`; `None` when the bytes in hand
/// run out first.
pub open spec fn objects_end(b: Seq<u8>, offset: int, remaining: nat) -> Option<int>
    decreases remaining,
{
    if remaining == 0 {
        Some(offset)
    } else if 1 + offset + 2 > b.len() {
        None
    } else {
        objects_end(b, offset + 2 + b[1 + offset + 1], (remaining - 1) as nat)
    }
}

/// The extent of a complete ADU of `total` bytes, as far as `b` goes.
pub open spec fn extent_of(b: Seq<u8>, total: int) -> Result<Extent> {
    if total > RTU_MAX_ADU_LEN {
        Err(Error::AduTooLarge { len: total as usize, max: RTU_MAX_ADU_LEN })
    } else if b.len() < total {
        Ok(Extent::NeedMore)
    } else {
        Ok(Extent::Complete(total as usize))
    }
}

/// The extent of a device identification response, found by walking its
/// object list.
pub open spec fn spec_mei14_response_extent(b: Seq<u8>) -> Result<Extent> {
    if b.len() < 10 {
        Ok(Extent::NeedMore)
    } else {
        match objects_end(b, 7, b[7] as nat) {
            None => Ok(Extent::NeedMore),
            Some(end) => extent_of(b, 1 + end + 2),
        }
    }
}

/// A response's PDU length, given the ADU bytes in hand (at least four). The
/// device identification response is walked separately.
pub open spec fn response_pdu_len(b: Seq<u8>) -> PduLen {
    let fc = b[1];
    if fixed_response_len(fc) is Some {
        PduLen::Len(fixed_response_len(fc)->0)
    } else if counted_response(fc) {
        PduLen::Len(2 + b[2])
    } else if fc == 0x18 {
        if b.len() < 5 { PduLen::Need } else { PduLen::Len(3 + u16_at(b, 2)) }
    } else {
        PduLen::Indeterminate
    }
}

/// The extent of the ADU that `b` begins, in the given direction.
///
/// An exception response's PDU is two bytes whatever its code. A code whose
/// length no field of the PDU gives (Diagnostics, a custom code, an
/// encapsulated transport other than device identification) has no
/// derivable extent.
pub open spec fn spec_derive_extent(direction: Direction, b: Seq<u8>) -> Result<Extent> {
    if b.len() < EXTENT_MIN {
        Ok(Extent::NeedMore)
    } else if b[1] >= 0x80 {
        extent_of(b, 5)
    } else if direction is Response && b[1] == 0x2B && b[2] == 0x0E {
        spec_mei14_response_extent(b)
    } else {
        match (if direction is Request { request_pdu_len(b) } else { response_pdu_len(b) }) {
            PduLen::Need => Ok(Extent::NeedMore),
            PduLen::Len(n) => extent_of(b, 1 + n + 2),
            PduLen::Indeterminate => Err(Error::IndeterminateLength { function: b[1] }),
        }
    }
}

/// The extent of a complete ADU of `total` bytes, given `len` bytes in hand.
fn extent_of_len(len: usize, total: usize) -> (r: Result<Extent>)
    ensures
        forall|b: Seq<u8>| b.len() == len ==> r == extent_of(b, total as int),
{
    if total > RTU_MAX_ADU_LEN {
        Err(Error::AduTooLarge { len: total, max: RTU_MAX_ADU_LEN })
    } else if len < total {
        Ok(Extent::NeedMore)
    } else {
        Ok(Extent::Complete(total))
    }
}

/// The extent of a device identification response, found by walking its
/// object list.
pub fn mei14_response_extent(bytes: &[u8]) -> (r: Result<Extent>)
    ensures
        r == spec_mei14_response_extent(bytes@),
{
    if bytes.len() < 10 {
        return Ok(Extent::NeedMore);
    }
    let count = bytes[7];
    let mut offset: usize = 7;
    let mut i: u8 = 0;
    while i < count
        invariant
            bytes@.len() >= 10,
            count == bytes@[7],
            i <= count,
            7 <= offset <= 7 + 257 * (i as int),
            objects_end(bytes@, 7, count as nat) == objects_end(bytes@, offset as int, (count - i) as nat),
        decreases count - i,
    {
        if 1 + offset + 2 > bytes.len() {
            return Ok(Extent::NeedMore);
        }
        let length = bytes[1 + offset + 1] as usize;
        offset = offset + 2 + length;
        i = i + 1;
    }
    let r = extent_of_len(bytes.len(), 1 + offset + 2);
    r
}

/// The extent of the RTU ADU that `bytes` begin, travelling in `direction`.
pub fn derive_extent(direction: Direction, bytes: &[u8]) -> (r: Result<Extent>)
    ensures
        r == spec_derive_extent(direction, bytes@),
{
    let n = bytes.len();
    if n < EXTENT_MIN {
        return Ok(Extent::NeedMore);
    }
    let fc = bytes[1];
    if fc >= 0x80 {
        return extent_of_len(n, 5);
    }
    let pdu_len: usize = match direction {
        Direction::Request => {
            if 1 <= fc && fc <= 6 {
                5
            } else if fc == 7 || fc == 0x0B || fc == 0x0C || fc == 0x11 {
                1
            } else if fc == 0x16 {
                7
            } else if fc == 0x18 {
                3
            } else if fc == 0x0F || fc == 0x10 {
                if n < 8 {
                    return Ok(Extent::NeedMore);
                }
                6 + bytes[6] as usize
            } else if fc == 0x14 || fc == 0x15 {
                2 + bytes[2] as usize
            } else if fc == 0x17 {
                if n < 11 {
                    return Ok(Extent::NeedMore);
                }
                10 + bytes[10] as usize
            } else if fc == 0x2B && bytes[2] == 0x0E {
                4
            } else {
                return Err(Error::IndeterminateLength { function: fc });
            }
        },
        Direction::Response => {
            if fc == 0x2B && bytes[2] == 0x0E {
                return mei14_response_extent(bytes);
            }
            if fc == 5 || fc == 6 || fc == 0x0F || fc == 0x10 || fc == 0x0B {
                5
            } else if fc == 7 {
                2
            } else if fc == 0x16 {
                7
            } else if (1 <= fc && fc <= 4) || fc == 0x0C || fc == 0x11 || fc == 0x14 || fc == 0x15 || fc == 0x17 {
                2 + bytes[2] as usize
            } else if fc == 0x18 {
                if n < 5 {
                    return Ok(Extent::NeedMore);
                }
                3 + (bytes[2] as usize) * 256 + bytes[3] as usize
            } else {
                return Err(Error::IndeterminateLength { function: fc });
            }
        },
    };
    extent_of_len(n, 1 + pdu_len + 2)
}

// ---------------------------------------------------------------------------
// Laws.

/// Splitting an ADU and wrapping its PDU again for its address gives back the
/// ADU: the CRC that was checked is the CRC that is written. The PDU it
/// carried is within the PDU size limit.
pub proof fn lemma_rtu_split_rewraps(b: Seq<u8>)
    requires
        spec_rtu_split(b) is Ok,
    ensures
        spec_rtu_split(b)->Ok_0.1.len() <= crate::frame::pdu_spec::MAX_PDU_LEN,
        spec_rtu_wrap(spec_rtu_split(b)->Ok_0.0, spec_rtu_split(b)->Ok_0.1) == b,
{
    let (a, p) = spec_rtu_split(b)->Ok_0;
    let covered = b.subrange(0, b.len() - 2);
    assert(seq![a.0] + p =~= covered);
    let c = le16_at(b, b.len() - 2);
    assert(le16(c) =~= b.subrange(b.len() - 2, b.len() as int));
    assert(covered + b.subrange(b.len() - 2, b.len() as int) =~= b);
}

/// Wrapping a PDU of 1 to 253 bytes and splitting the ADU gives back the
/// address and the PDU; the ADU is within the framing's maximum.
pub proof fn lemma_rtu_wrap_splits(a: UnitId, p: Seq<u8>)
    requires
        1 <= p.len() <= crate::frame::pdu_spec::MAX_PDU_LEN,
    ensures
        spec_rtu_wrap(a, p).len() <= RTU_MAX_ADU_LEN,
        spec_rtu_split(spec_rtu_wrap(a, p)) == Ok::<(UnitId, Seq<u8>), Error>((a, p)),
{
    let covered = seq![a.0] + p;
    let b = spec_rtu_wrap(a, p);
    let c = crc16_modbus(covered);
    assert(b.subrange(0, b.len() - 2) =~= covered);
    assert(le16_at(b, b.len() - 2) == c);
    assert(b.subrange(1, b.len() - 2) =~= p);
}

/// An object walk ends no earlier than it starts.
pub proof fn lemma_objects_end_after(b: Seq<u8>, offset: int, remaining: nat)
    ensures
        objects_end(b, offset, remaining) matches Some(e) ==> e >= offset,
    decreases remaining,
{
    if remaining > 0 && 1 + offset + 2 <= b.len() {
        lemma_objects_end_after(b, offset + 2 + b[1 + offset + 1], (remaining - 1) as nat);
    }
}

/// An extent found complete spans at least an address, a function code and a
/// CRC, and lies within the bytes it was found in.
pub proof fn lemma_derive_extent_within(direction: Direction, b: Seq<u8>)
    ensures
        spec_derive_extent(direction, b) matches Ok(Extent::Complete(n)) ==> 3 <= n <= b.len(),
{
    if b.len() >= 10 {
        lemma_objects_end_after(b, 7, b[7] as nat);
    }
}

/// Every outcome of the extent rule is one of four: more bytes needed, which
/// is all fewer than four bytes can give; a complete ADU of 4 to 256 bytes
/// lying within the bytes given; a function whose length cannot be derived;
/// or an ADU longer than the framing permits.
pub proof fn lemma_derive_extent_outcomes(direction: Direction, b: Seq<u8>)
    ensures
        b.len() < EXTENT_MIN ==> spec_derive_extent(direction, b) == Ok::<Extent, Error>(Extent::NeedMore),
        match spec_derive_extent(direction, b) {
            Ok(Extent::NeedMore) => true,
            Ok(Extent::Complete(n)) => EXTENT_MIN <= n <= RTU_MAX_ADU_LEN && n <= b.len(),
            Err(e) => e == (Error::IndeterminateLength { function: b[1] }) || (e matches Error::AduTooLarge {
                len,
                max,
            } && max == RTU_MAX_ADU_LEN && len > RTU_MAX_ADU_LEN),
        },
{
    if b.len() >= 10 {
        lemma_objects_end_after(b, 7, b[7] as nat);
        lemma_objects_end_bounded(b, 7, b[7] as nat);
    }
    if b.len() >= 5 {
        assert(u16_at(b, 2) <= 0xFFFF);
    }
}

/// An object walk advances at most 257 bytes per object.
proof fn lemma_objects_end_bounded(b: Seq<u8>, offset: int, remaining: nat)
    ensures
        objects_end(b, offset, remaining) matches Some(e) ==> e <= offset + 257 * remaining,
    decreases remaining,
{
    if remaining > 0 && 1 + offset + 2 <= b.len() {
        lemma_objects_end_bounded(b, offset + 2 + b[1 + offset + 1], (remaining - 1) as nat);
    }
}

/// A walk over objects that ends at `end` in `b` ends there too in any
/// sequence that agrees with `b` up to the CRC after `end`.
proof fn lemma_objects_end_agree(b: Seq<u8>, c: Seq<u8>, offset: int, remaining: nat, end: int)
    requires
        offset >= 0,
        objects_end(b, offset, remaining) == Some(end),
        c.len() >= end + 3,
        forall|i: int| 0 <= i < end + 3 ==> #[trigger] c[i] == b[i],
    ensures
        objects_end(c, offset, remaining) == Some(end),
    decreases remaining,
{
    if remaining > 0 {
        let next = offset + 2 + b[1 + offset + 1];
        lemma_objects_end_after(b, next, (remaining - 1) as nat);
        assert(c[1 + offset + 1] == b[1 + offset + 1]);
        lemma_objects_end_agree(b, c, next, (remaining - 1) as nat, end);
    }
}

/// The extent of an ADU depends on its own bytes alone: once the rule finds
/// an ADU of `n` bytes, any byte sequence that begins with the same `n`
/// bytes is found to begin with the same ADU, so the extent stays fixed as
/// more bytes arrive.
#[verifier::spinoff_prover]
#[verifier::rlimit(40)]
pub proof fn lemma_derive_extent_fixed(direction: Direction, b: Seq<u8>, c: Seq<u8>, n: usize)
    requires
        spec_derive_extent(direction, b) == Ok::<Extent, Error>(Extent::Complete(n)),
        n <= c.len(),
        forall|i: int| 0 <= i < n ==> #[trigger] c[i] == b[i],
    ensures
        spec_derive_extent(direction, c) == Ok::<Extent, Error>(Extent::Complete(n)),
{
    lemma_derive_extent_outcomes(direction, b);
    assert(EXTENT_MIN <= n <= b.len());
    assert(c[1] == b[1]);
    assert(c[2] == b[2]);
    assert(c[3] == b[3]);
    assert(u16_at(c, 2) == u16_at(b, 2));
    if n > 6 {
        assert(c[6] == b[6]);
    }
    if n > 7 {
        assert(c[7] == b[7]);
    }
    if n > 10 {
        assert(c[10] == b[10]);
    }
    if b[1] >= 0x80 {
        assert(n == 5);
    } else if direction is Response && b[1] == 0x2B && b[2] == 0x0E {
        assert(spec_derive_extent(direction, b) == spec_mei14_response_extent(b));
        assert(b.len() >= 10);
        lemma_objects_end_bounded(b, 7, b[7] as nat);
        lemma_objects_end_after(b, 7, b[7] as nat);
        assert(objects_end(b, 7, b[7] as nat) is Some);
        let end = objects_end(b, 7, b[7] as nat)->Some_0;
        assert(n == end + 3);
        lemma_objects_end_agree(b, c, 7, b[7] as nat, end);
        assert(spec_derive_extent(direction, c) == spec_mei14_response_extent(c));
    } else {
        let lb = if direction is Request { request_pdu_len(b) } else { response_pdu_len(b) };
        let lc = if direction is Request { request_pdu_len(c) } else { response_pdu_len(c) };
        assert(lb is Len);
        assert(n == 1 + lb->Len_0 + 2);
        assert(lc == lb);
    }
}

/// Once found, an extent is the same for the ADU's own bytes and for those
/// bytes followed by anything.
pub proof fn lemma_derive_extent_stable(direction: Direction, b: Seq<u8>, extra: Seq<u8>)
    ensures
        spec_derive_extent(direction, b) matches Ok(Extent::Complete(n)) ==> spec_derive_extent(
            direction,
            b.take(n as int),
        ) == Ok::<Extent, Error>(Extent::Complete(n)) && spec_derive_extent(direction, b + extra)
            == Ok::<Extent, Error>(Extent::Complete(n)),
{
    if let Ok(Extent::Complete(n)) = spec_derive_extent(direction, b) {
        lemma_derive_extent_outcomes(direction, b);
        assert forall|i: int| 0 <= i < n implies #[trigger] b.take(n as int)[i] == b[i] by {}
        lemma_derive_extent_fixed(direction, b, b.take(n as int), n);
        assert forall|i: int| 0 <= i < n implies #[trigger] (b + extra)[i] == b[i] by {}
        lemma_derive_extent_fixed(direction, b, b + extra, n);
    }
}

} // verus!
