//! Whatever a decoder accepts re-encodes to the bytes it came from: decoding
//! never discards information the encoder would have to invent.

use vstd::prelude::*;

use crate::error::{Error, Result};
use crate::frame::wire::{
    be16, bit_in, bit_of, byte_from_bits, pack_bits, packed_byte, packed_len, padding_clear,
    regs_bytes, regs_from, u16_at, unpack_bits, words_bytes, words_from,
};
use crate::frame::value::RegisterValue;
use crate::frame::file::{
    read_request_bytes, spec_check_numbers, spec_decode_read_requests, spec_decode_read_responses,
    spec_decode_write_records, spec_encode_read_requests, spec_encode_read_responses,
    spec_encode_write_records, spec_parse_read_requests, spec_parse_read_responses,
    spec_parse_write_records, spec_read_requests_data, spec_read_response_bytes,
    spec_read_responses_data, spec_write_record_bytes, spec_write_records_data, FileRecordRead,
    FileRecordWriteModel,
};
use crate::frame::diagnostics::lemma_sub_function_decode_encode;
use crate::frame::exception::lemma_exception_response_reencodes;
use crate::frame::function::{is_named_function_byte, lemma_function_code_decode_encode, FunctionCode};
use crate::frame::pdu_spec::{
    decode_read_write, spec_decode_request, spec_decode_request_body, spec_decode_response,
    spec_decode_response_body,
    spec_encode_request, spec_encode_response, spec_request_body, spec_response_body,
};
use crate::frame::mei::{
    spec_decode_mei_request, spec_decode_mei_response, spec_encode_mei_request,
    spec_encode_mei_response, spec_encode_objects, spec_parse_objects, DeviceIdObjectModel,
    MeiResponseModel,
};

verus! {

/// A big-endian word read from two bytes writes back as those two bytes.
#[verifier::spinoff_prover]
pub proof fn lemma_be16_u16_at(b: Seq<u8>, i: int)
    requires
        0 <= i,
        i + 1 < b.len(),
    ensures
        be16(u16_at(b, i)) == b.subrange(i, i + 2),
{
    let v = u16_at(b, i);
    assert(v == b[i] as int * 256 + b[i + 1] as int);
    assert(v / 256 == b[i]);
    assert(v % 256 == b[i + 1]);
    assert(be16(v) =~= b.subrange(i, i + 2));
}

/// An even run of bytes read as registers writes back as the same bytes.
#[verifier::spinoff_prover]
pub proof fn lemma_regs_reencode(b: Seq<u8>)
    requires
        b.len() % 2 == 0,
    ensures
        regs_bytes(regs_from(b)) == b,
{
    let r = regs_bytes(regs_from(b));
    assert forall|i: int| 0 <= i < b.len() implies #[trigger] r[i] == b[i] by {
        let k = i / 2;
        assert(2 * k + 1 < b.len());
        let v = u16_at(b, 2 * k);
        assert(v == b[2 * k] as int * 256 + b[2 * k + 1] as int);
        assert(v / 256 == b[2 * k]);
        assert(v % 256 == b[2 * k + 1]);
        if i % 2 == 0 {
            assert(i == 2 * k);
        } else {
            assert(i == 2 * k + 1);
        }
    }
    assert(r =~= b);
}

/// An even run of bytes read as words writes back as the same bytes.
#[verifier::spinoff_prover]
pub proof fn lemma_words_reencode(b: Seq<u8>)
    requires
        b.len() % 2 == 0,
    ensures
        words_bytes(words_from(b)) == b,
{
    assert(words_from(b).map_values(|w: u16| RegisterValue(w)) =~= regs_from(b));
    lemma_regs_reencode(b);
}

/// A byte's eight bits, least significant first, make the byte again.
#[verifier::spinoff_prover]
proof fn lemma_byte_bits(x: u8)
    ensures
        byte_from_bits(
            bit_in(x, 0),
            bit_in(x, 1),
            bit_in(x, 2),
            bit_in(x, 3),
            bit_in(x, 4),
            bit_in(x, 5),
            bit_in(x, 6),
            bit_in(x, 7),
        ) == x,
{
    assert(byte_from_bits(
        (x >> 0u8) & 1u8 == 1u8,
        (x >> 1u8) & 1u8 == 1u8,
        (x >> 2u8) & 1u8 == 1u8,
        (x >> 3u8) & 1u8 == 1u8,
        (x >> 4u8) & 1u8 == 1u8,
        (x >> 5u8) & 1u8 == 1u8,
        (x >> 6u8) & 1u8 == 1u8,
        (x >> 7u8) & 1u8 == 1u8,
    ) == x) by (bit_vector);
}

/// A byte whose bits from `r` up are clear is made again by its first `r`
/// bits alone.
#[verifier::spinoff_prover]
proof fn lemma_byte_low_bits(x: u8, r: u8)
    requires
        1 <= r < 8,
        x >> r == 0,
    ensures
        byte_from_bits(
            bit_in(x, 0) && 0 < r,
            bit_in(x, 1) && 1 < r,
            bit_in(x, 2) && 2 < r,
            bit_in(x, 3) && 3 < r,
            bit_in(x, 4) && 4 < r,
            bit_in(x, 5) && 5 < r,
            bit_in(x, 6) && 6 < r,
            bit_in(x, 7) && 7 < r,
        ) == x,
{
    assert(byte_from_bits(
        (x >> 0u8) & 1u8 == 1u8 && 0 < r,
        (x >> 1u8) & 1u8 == 1u8 && 1 < r,
        (x >> 2u8) & 1u8 == 1u8 && 2 < r,
        (x >> 3u8) & 1u8 == 1u8 && 3 < r,
        (x >> 4u8) & 1u8 == 1u8 && 4 < r,
        (x >> 5u8) & 1u8 == 1u8 && 5 < r,
        (x >> 6u8) & 1u8 == 1u8 && 6 < r,
        (x >> 7u8) & 1u8 == 1u8 && 7 < r,
    ) == x) by (bit_vector)
        requires
            1 <= r < 8,
            x >> r == 0,
    ;
}

/// Bytes unpacked to bits pack back to the same bytes.
#[verifier::spinoff_prover]
pub proof fn lemma_bits_reencode(d: Seq<u8>)
    ensures
        pack_bits(unpack_bits(d)) == d,
{
    let u = unpack_bits(d);
    let p = pack_bits(u);
    assert(p.len() == d.len());
    assert forall|j: int| 0 <= j < d.len() implies #[trigger] p[j] == d[j] by {
        assert forall|k: int| 0 <= k < 8 implies #[trigger] bit_of(u, 8 * j + k) == bit_in(d[j], k as u8) by {
            assert((8 * j + k) / 8 == j);
            assert((8 * j + k) % 8 == k);
        }
        assert(bit_of(u, 8 * j + 0) == bit_in(d[j], 0));
        assert(bit_of(u, 8 * j + 1) == bit_in(d[j], 1));
        assert(bit_of(u, 8 * j + 2) == bit_in(d[j], 2));
        assert(bit_of(u, 8 * j + 3) == bit_in(d[j], 3));
        assert(bit_of(u, 8 * j + 4) == bit_in(d[j], 4));
        assert(bit_of(u, 8 * j + 5) == bit_in(d[j], 5));
        assert(bit_of(u, 8 * j + 6) == bit_in(d[j], 6));
        assert(bit_of(u, 8 * j + 7) == bit_in(d[j], 7));
        lemma_byte_bits(d[j]);
    }
    assert(p =~= d);
}

/// Bytes holding `q` packed bits, with the padding past them clear, pack back
/// to the same bytes from those `q` bits.
#[verifier::spinoff_prover]
pub proof fn lemma_bits_take_reencode(d: Seq<u8>, q: int)
    requires
        1 <= q,
        d.len() == packed_len(q),
        padding_clear(d, q),
    ensures
        pack_bits(unpack_bits(d).take(q)) == d,
{
    let u = unpack_bits(d).take(q);
    let p = pack_bits(u);
    assert(p.len() == d.len());
    assert forall|j: int| 0 <= j < d.len() implies #[trigger] p[j] == d[j] by {
        assert forall|k: int| 0 <= k < 8 implies #[trigger] bit_of(u, 8 * j + k) == (bit_in(d[j], k as u8) && 8 * j + k < q) by {
            assert((8 * j + k) / 8 == j);
            assert((8 * j + k) % 8 == k);
        }
        if 8 * j + 8 <= q {
            assert(bit_of(u, 8 * j + 0) == bit_in(d[j], 0));
            assert(bit_of(u, 8 * j + 1) == bit_in(d[j], 1));
            assert(bit_of(u, 8 * j + 2) == bit_in(d[j], 2));
            assert(bit_of(u, 8 * j + 3) == bit_in(d[j], 3));
            assert(bit_of(u, 8 * j + 4) == bit_in(d[j], 4));
            assert(bit_of(u, 8 * j + 5) == bit_in(d[j], 5));
            assert(bit_of(u, 8 * j + 6) == bit_in(d[j], 6));
            assert(bit_of(u, 8 * j + 7) == bit_in(d[j], 7));
            lemma_byte_bits(d[j]);
        } else {
            let r = (q % 8) as u8;
            assert(j == d.len() - 1);
            assert(q == 8 * j + r);
            assert(1 <= r < 8);
            assert(d[j] >> r == 0);
            assert(bit_of(u, 8 * j + 0) == (bit_in(d[j], 0) && 0 < r));
            assert(bit_of(u, 8 * j + 1) == (bit_in(d[j], 1) && 1 < r));
            assert(bit_of(u, 8 * j + 2) == (bit_in(d[j], 2) && 2 < r));
            assert(bit_of(u, 8 * j + 3) == (bit_in(d[j], 3) && 3 < r));
            assert(bit_of(u, 8 * j + 4) == (bit_in(d[j], 4) && 4 < r));
            assert(bit_of(u, 8 * j + 5) == (bit_in(d[j], 5) && 5 < r));
            assert(bit_of(u, 8 * j + 6) == (bit_in(d[j], 6) && 6 < r));
            assert(bit_of(u, 8 * j + 7) == (bit_in(d[j], 7) && 7 < r));
            lemma_byte_low_bits(d[j], r);
        }
    }
    assert(p =~= d);
}

// ---------------------------------------------------------------------------
// File records.

/// Read sub-requests parsed from `pos` to the end of a region write back as
/// that part of the region.
#[verifier::spinoff_prover]
proof fn lemma_read_requests_reencode(r: Seq<u8>, pos: int)
    requires
        0 <= pos <= r.len(),
        spec_parse_read_requests(r, pos) is Ok,
    ensures
        spec_read_requests_data(spec_parse_read_requests(r, pos)->Ok_0) == Ok::<Seq<u8>, Error>(r.subrange(pos, r.len() as int)),
    decreases r.len() - pos,
{
    let recs = spec_parse_read_requests(r, pos)->Ok_0;
    if pos == r.len() {
        assert(recs.len() == 0);
        assert(r.subrange(pos, r.len() as int) =~= seq![]);
    } else {
        let rest = spec_parse_read_requests(r, pos + 7)->Ok_0;
        lemma_read_requests_reencode(r, pos + 7);
        assert(recs.drop_first() =~= rest);
        lemma_be16_u16_at(r, pos + 1);
        lemma_be16_u16_at(r, pos + 3);
        lemma_be16_u16_at(r, pos + 5);
        assert(read_request_bytes(recs[0]) =~= r.subrange(pos, pos + 7));
        assert(r.subrange(pos, pos + 7) + r.subrange(pos + 7, r.len() as int) =~= r.subrange(pos, r.len() as int));
    }
}

/// A decoded Read File Record request body re-encodes to the count byte and
/// the region it came from.
#[verifier::spinoff_prover]
pub proof fn lemma_decode_read_requests_reencode(p: Seq<u8>)
    requires
        spec_decode_read_requests(p) is Ok,
    ensures
        spec_encode_read_requests(spec_decode_read_requests(p)->Ok_0) == Ok::<Seq<u8>, Error>(p.subrange(1, 2 + p[1])),
{
    let region = p.subrange(2, 2 + p[1] as int);
    lemma_read_requests_reencode(region, 0);
    assert(region.subrange(0, region.len() as int) =~= region);
    assert(seq![p[1]] + region =~= p.subrange(1, 2 + p[1]));
}

/// One read sub-response writes back as the bytes it was read from.
#[verifier::spinoff_prover]
proof fn lemma_read_response_reencode(r: Seq<u8>, pos: int)
    requires
        0 <= pos < r.len(),
        r[pos] % 2 == 1,
        r[pos + 1] == 6,
        pos + 1 + r[pos] <= r.len(),
    ensures
        spec_read_response_bytes(regs_from(r.subrange(pos + 2, pos + 1 + r[pos]))) == Ok::<Seq<u8>, Error>(r.subrange(pos, pos + 1 + r[pos])),
{
    let next = pos + 1 + r[pos];
    let data = r.subrange(pos + 2, next);
    assert(data.len() == r[pos] - 1);
    lemma_regs_reencode(data);
    assert(seq![r[pos], r[pos + 1]] + data =~= r.subrange(pos, next));
}

/// Read sub-responses parsed from `pos` write back as that part of the region.
#[verifier::spinoff_prover]
proof fn lemma_read_responses_reencode(r: Seq<u8>, pos: int)
    requires
        0 <= pos <= r.len(),
        spec_parse_read_responses(r, pos) is Ok,
    ensures
        spec_read_responses_data(spec_parse_read_responses(r, pos)->Ok_0) == Ok::<Seq<u8>, Error>(r.subrange(pos, r.len() as int)),
    decreases r.len() - pos,
{
    let recs = spec_parse_read_responses(r, pos)->Ok_0;
    if pos == r.len() {
        assert(recs.len() == 0);
        assert(r.subrange(pos, r.len() as int) =~= seq![]);
    } else {
        let next = pos + 1 + r[pos];
        let rest = spec_parse_read_responses(r, next)->Ok_0;
        lemma_read_responses_reencode(r, next);
        assert(recs.drop_first() =~= rest);
        assert(recs[0] == regs_from(r.subrange(pos + 2, next)));
        lemma_read_response_reencode(r, pos);
        assert(r.subrange(pos, next) + r.subrange(next, r.len() as int) =~= r.subrange(pos, r.len() as int));
    }
}

/// A decoded Read File Record response body re-encodes to the length byte
/// and the region it came from.
#[verifier::spinoff_prover]
pub proof fn lemma_decode_read_responses_reencode(p: Seq<u8>)
    requires
        spec_decode_read_responses(p) is Ok,
    ensures
        spec_encode_read_responses(spec_decode_read_responses(p)->Ok_0) == Ok::<Seq<u8>, Error>(p.subrange(1, 2 + p[1])),
{
    let region = p.subrange(2, 2 + p[1] as int);
    lemma_read_responses_reencode(region, 0);
    assert(region.subrange(0, region.len() as int) =~= region);
    assert(seq![p[1]] + region =~= p.subrange(1, 2 + p[1]));
}

/// One write record writes back as the bytes it was read from.
#[verifier::spinoff_prover]
proof fn lemma_write_record_reencode(r: Seq<u8>, pos: int, rec: FileRecordWriteModel)
    requires
        0 <= pos,
        pos + 7 + 2 * u16_at(r, pos + 5) <= r.len(),
        spec_check_numbers(u16_at(r, pos + 1), u16_at(r, pos + 3)) is None,
        r[pos] == 6,
        rec == (FileRecordWriteModel {
            file_number: crate::frame::value::FileNumber(u16_at(r, pos + 1)),
            record_number: crate::frame::value::RecordNumber(u16_at(r, pos + 3)),
            values: regs_from(r.subrange(pos + 7, pos + 7 + 2 * u16_at(r, pos + 5))),
        }),
    ensures
        spec_write_record_bytes(rec) == Ok::<Seq<u8>, Error>(r.subrange(pos, pos + 7 + 2 * u16_at(r, pos + 5))),
{
    let l = u16_at(r, pos + 5) as int;
    let next = pos + 7 + 2 * l;
    let data = r.subrange(pos + 7, next);
    lemma_regs_reencode(data);
    lemma_be16_u16_at(r, pos + 1);
    lemma_be16_u16_at(r, pos + 3);
    lemma_be16_u16_at(r, pos + 5);
    assert(rec.values.len() == l);
    assert(seq![r[pos]] + r.subrange(pos + 1, pos + 3) + r.subrange(pos + 3, pos + 5) + r.subrange(pos + 5, pos + 7) + data =~= r.subrange(pos, next));
}

/// Write records parsed from `pos` write back as that part of the region.
#[verifier::spinoff_prover]
proof fn lemma_write_records_reencode(r: Seq<u8>, pos: int)
    requires
        0 <= pos <= r.len(),
        spec_parse_write_records(r, pos) is Ok,
    ensures
        spec_write_records_data(spec_parse_write_records(r, pos)->Ok_0) == Ok::<Seq<u8>, Error>(r.subrange(pos, r.len() as int)),
    decreases r.len() - pos,
{
    let recs = spec_parse_write_records(r, pos)->Ok_0;
    if pos == r.len() {
        assert(recs.len() == 0);
        assert(r.subrange(pos, r.len() as int) =~= seq![]);
    } else {
        let l = u16_at(r, pos + 5) as int;
        let next = pos + 7 + 2 * l;
        let rest = spec_parse_write_records(r, next)->Ok_0;
        lemma_write_records_reencode(r, next);
        assert(recs.drop_first() =~= rest);
        lemma_write_record_reencode(r, pos, recs[0]);
        assert(r.subrange(pos, next) + r.subrange(next, r.len() as int) =~= r.subrange(pos, r.len() as int));
    }
}

/// A decoded Write File Record body re-encodes to the length byte and the
/// region it came from.
#[verifier::spinoff_prover]
pub proof fn lemma_decode_write_records_reencode(p: Seq<u8>)
    requires
        spec_decode_write_records(p) is Ok,
    ensures
        spec_encode_write_records(spec_decode_write_records(p)->Ok_0) == Ok::<Seq<u8>, Error>(p.subrange(1, 2 + p[1])),
{
    let region = p.subrange(2, 2 + p[1] as int);
    lemma_write_records_reencode(region, 0);
    assert(region.subrange(0, region.len() as int) =~= region);
    assert(seq![p[1]] + region =~= p.subrange(1, 2 + p[1]));
}

// ---------------------------------------------------------------------------
// Encapsulated interface transport.

/// A decoded MEI request body re-encodes to the bytes after the function
/// code.
#[verifier::spinoff_prover]
pub proof fn lemma_mei_request_reencode(p: Seq<u8>)
    requires
        spec_decode_mei_request(p) is Ok,
    ensures
        spec_encode_mei_request(spec_decode_mei_request(p)->Ok_0) == p.skip(1),
{
    assert(seq![p[1]] + p.skip(2) =~= p.skip(1));
    if p.len() == 4 {
        assert(seq![p[1], p[2], p[3]] =~= p.skip(1));
    }
}

/// Identification objects parsed from `pos` write back as that part of `r`.
#[verifier::spinoff_prover]
proof fn lemma_objects_reencode(r: Seq<u8>, pos: int)
    requires
        0 <= pos <= r.len(),
        spec_parse_objects(r, pos) is Ok,
    ensures
        spec_encode_objects(spec_parse_objects(r, pos)->Ok_0) == Ok::<Seq<u8>, Error>(r.subrange(pos, r.len() as int)),
    decreases r.len() - pos,
{
    let objs = spec_parse_objects(r, pos)->Ok_0;
    if pos == r.len() {
        assert(objs.len() == 0);
        assert(r.subrange(pos, r.len() as int) =~= seq![]);
    } else {
        let next = pos + 2 + r[pos + 1];
        lemma_objects_reencode(r, next);
        assert(objs.drop_first() =~= spec_parse_objects(r, next)->Ok_0);
        assert(seq![r[pos], r[pos + 1]] + r.subrange(pos + 2, next) =~= r.subrange(pos, next));
        assert(r.subrange(pos, next) + r.subrange(next, r.len() as int) =~= r.subrange(pos, r.len() as int));
    }
}

/// Parsing objects yields no more objects than there are bytes.
#[verifier::spinoff_prover]
proof fn lemma_objects_count(r: Seq<u8>, pos: int)
    requires
        0 <= pos <= r.len(),
        spec_parse_objects(r, pos) is Ok,
    ensures
        2 * spec_parse_objects(r, pos)->Ok_0.len() <= r.len() - pos,
    decreases r.len() - pos,
{
    if pos < r.len() {
        lemma_objects_count(r, pos + 2 + r[pos + 1]);
    }
}

/// A decoded MEI response body re-encodes to the bytes after the function
/// code.
#[verifier::spinoff_prover]
pub proof fn lemma_mei_response_reencode(p: Seq<u8>)
    requires
        spec_decode_mei_response(p) is Ok,
    ensures
        spec_encode_mei_response(spec_decode_mei_response(p)->Ok_0) == Ok::<Seq<u8>, Error>(p.skip(1)),
{
    assert(seq![p[1]] + p.skip(2) =~= p.skip(1));
    if p[1] == 14 {
        let r = p.skip(7);
        lemma_objects_reencode(r, 0);
        lemma_objects_count(r, 0);
        assert(r.subrange(0, r.len() as int) =~= r);
        assert(seq![p[1], p[2], p[3], p[4], p[5], p[6]] + r =~= p.skip(1));
    }
}

// ---------------------------------------------------------------------------
// Whole PDUs.

/// A code byte and two words make the five bytes they were read from.
#[verifier::spinoff_prover]
proof fn lemma_two_words(p: Seq<u8>)
    requires
        p.len() == 5,
    ensures
        seq![p[0]] + be16(u16_at(p, 1)) + be16(u16_at(p, 3)) == p,
{
    lemma_be16_u16_at(p, 1);
    lemma_be16_u16_at(p, 3);
    assert(seq![p[0]] + p.subrange(1, 3) + p.subrange(3, 5) =~= p);
}

/// A code byte and three words make the seven bytes they were read from.
#[verifier::spinoff_prover]
proof fn lemma_three_words(p: Seq<u8>)
    requires
        p.len() == 7,
    ensures
        seq![p[0]] + be16(u16_at(p, 1)) + be16(u16_at(p, 3)) + be16(u16_at(p, 5)) == p,
{
    lemma_be16_u16_at(p, 1);
    lemma_be16_u16_at(p, 3);
    lemma_be16_u16_at(p, 5);
    assert(seq![p[0]] + p.subrange(1, 3) + p.subrange(3, 5) + p.subrange(5, 7) =~= p);
}

/// A Diagnostics PDU re-encodes to its own bytes.
#[verifier::spinoff_prover]
proof fn lemma_diagnostics_reencode(p: Seq<u8>)
    requires
        p.len() >= 3,
        (p.len() - 3) % 2 == 0,
    ensures
        seq![p[0]] + be16(u16_at(p, 1)) + words_bytes(words_from(p.skip(3))) == p,
{
    lemma_be16_u16_at(p, 1);
    lemma_words_reencode(p.skip(3));
    assert(seq![p[0]] + p.subrange(1, 3) + p.skip(3) =~= p);
}

/// A counted run re-encodes to its own bytes.
#[verifier::spinoff_prover]
proof fn lemma_counted_reencode(p: Seq<u8>)
    requires
        p.len() >= 2,
        p.len() - 2 == p[1],
    ensures
        seq![p[0], (p.len() - 2) as u8] + p.skip(2) == p,
{
    assert(seq![p[0], (p.len() - 2) as u8] + p.skip(2) =~= p);
}

/// Request codes whose layout is fixed by the code alone.
pub open spec fn fixed_request_code(c: u8) -> bool {
    c == 1 || c == 2 || c == 3 || c == 4 || c == 5 || c == 6 || c == 7 || c == 11 || c == 12 || c == 17
        || c == 22 || c == 24
}

/// A decoded request with a fixed layout re-encodes to the PDU.
#[verifier::spinoff_prover]
proof fn lemma_fixed_request_reencode(p: Seq<u8>)
    requires
        spec_decode_request(p) is Ok,
        fixed_request_code(p[0]),
    ensures
        spec_request_body(spec_decode_request(p)->Ok_0) == Ok::<Seq<u8>, Error>(p),
{
    if p[0] <= 6 {
        lemma_two_words(p);
    } else if p[0] == 22 {
        lemma_three_words(p);
    } else if p[0] == 24 {
        lemma_be16_u16_at(p, 1);
        assert(seq![p[0]] + p.subrange(1, 3) =~= p);
    } else {
        assert(seq![p[0]] =~= p);
    }
}

/// A decoded Diagnostics request re-encodes to the PDU.
#[verifier::spinoff_prover]
proof fn lemma_diagnostics_request_reencode(p: Seq<u8>)
    requires
        spec_decode_request(p) is Ok,
        p[0] == 8,
    ensures
        spec_request_body(spec_decode_request(p)->Ok_0) == Ok::<Seq<u8>, Error>(p),
{
    lemma_sub_function_decode_encode(u16_at(p, 1));
    lemma_diagnostics_reencode(p);
}

/// A decoded Write Multiple Coils request re-encodes to the PDU.
#[verifier::spinoff_prover]
proof fn lemma_write_coils_reencode(p: Seq<u8>)
    requires
        spec_decode_request(p) is Ok,
        p[0] == 15,
    ensures
        spec_request_body(spec_decode_request(p)->Ok_0) == Ok::<Seq<u8>, Error>(p),
{
    let q = u16_at(p, 3) as int;
    let d = p.subrange(6, 6 + p[5] as int);
    lemma_bits_take_reencode(d, q);
    lemma_be16_u16_at(p, 1);
    lemma_be16_u16_at(p, 3);
    assert(unpack_bits(d).take(q).len() == q);
    assert(seq![p[0]] + p.subrange(1, 3) + p.subrange(3, 5) + seq![p[5]] + d =~= p);
}

/// A decoded Write Multiple Registers request re-encodes to the PDU.
#[verifier::spinoff_prover]
proof fn lemma_write_registers_reencode(p: Seq<u8>)
    requires
        spec_decode_request(p) is Ok,
        p[0] == 16,
    ensures
        spec_request_body(spec_decode_request(p)->Ok_0) == Ok::<Seq<u8>, Error>(p),
{
    let d = p.subrange(6, 6 + p[5] as int);
    lemma_regs_reencode(d);
    lemma_be16_u16_at(p, 1);
    lemma_be16_u16_at(p, 3);
    assert(seq![p[0]] + p.subrange(1, 3) + p.subrange(3, 5) + seq![p[5]] + d =~= p);
}

/// A decoded Read/Write Multiple Registers request re-encodes to the PDU.
#[verifier::spinoff_prover]
proof fn lemma_read_write_reencode(p: Seq<u8>)
    requires
        spec_decode_request(p) is Ok,
        p[0] == 23,
    ensures
        spec_request_body(spec_decode_request(p)->Ok_0) == Ok::<Seq<u8>, Error>(p),
{
    assert(FunctionCode::spec_decode(p[0]) == Ok::<FunctionCode, Error>(FunctionCode::ReadWriteMultipleRegisters));
    assert(spec_decode_request(p) == decode_read_write(p));
    let d = p.subrange(10, 10 + p[9] as int);
    lemma_regs_reencode(d);
    lemma_be16_u16_at(p, 1);
    lemma_be16_u16_at(p, 3);
    lemma_be16_u16_at(p, 5);
    lemma_be16_u16_at(p, 7);
    assert(seq![p[0]] + p.subrange(1, 3) + p.subrange(3, 5) + p.subrange(5, 7) + p.subrange(7, 9) + seq![p[9]] + d =~= p);
}

/// A decoded file record request re-encodes to the PDU.
#[verifier::spinoff_prover]
proof fn lemma_file_request_reencode(p: Seq<u8>)
    requires
        spec_decode_request(p) is Ok,
        p[0] == 20 || p[0] == 21,
    ensures
        spec_request_body(spec_decode_request(p)->Ok_0) == Ok::<Seq<u8>, Error>(p),
{
    if p[0] == 20 {
        lemma_decode_read_requests_reencode(p);
    } else {
        lemma_decode_write_records_reencode(p);
    }
    assert(seq![p[0]] + p.subrange(1, 2 + p[1]) =~= p);
}

/// A decoded request with an opaque body re-encodes to the PDU: the
/// encapsulated transport and the custom codes.
#[verifier::spinoff_prover]
proof fn lemma_opaque_request_reencode(p: Seq<u8>)
    requires
        spec_decode_request(p) is Ok,
        p[0] == 43 || !is_named_function_byte(p[0]),
    ensures
        spec_request_body(spec_decode_request(p)->Ok_0) == Ok::<Seq<u8>, Error>(p),
{
    lemma_function_code_decode_encode(p[0]);
    if p[0] == 43 {
        lemma_mei_request_reencode(p);
    }
    assert(seq![p[0]] + p.skip(1) =~= p);
}

/// The body of a request PDU that decoded re-encodes to the PDU.
#[verifier::spinoff_prover]
proof fn lemma_request_body_reencode(p: Seq<u8>)
    requires
        spec_decode_request(p) is Ok,
    ensures
        spec_request_body(spec_decode_request(p)->Ok_0) == Ok::<Seq<u8>, Error>(p),
{
    let c = p[0];
    if fixed_request_code(c) {
        lemma_fixed_request_reencode(p);
    } else if c == 8 {
        lemma_diagnostics_request_reencode(p);
    } else if c == 15 {
        lemma_write_coils_reencode(p);
    } else if c == 16 {
        lemma_write_registers_reencode(p);
    } else if c == 23 {
        lemma_read_write_reencode(p);
    } else if c == 20 || c == 21 {
        lemma_file_request_reencode(p);
    } else {
        lemma_opaque_request_reencode(p);
    }
}

/// Whatever the request decoder accepts, of any length, re-encodes to the
/// identical byte sequence.
#[verifier::spinoff_prover]
pub proof fn lemma_request_reencodes(p: Seq<u8>)
    requires
        spec_decode_request(p) is Ok,
    ensures
        spec_encode_request(spec_decode_request(p)->Ok_0) == Ok::<Seq<u8>, Error>(p),
{
    lemma_request_body_reencode(p);
}

/// A decoded response with a counted run re-encodes to the PDU.
#[verifier::spinoff_prover]
proof fn lemma_counted_response_reencode(p: Seq<u8>)
    requires
        spec_decode_response(p) is Ok,
        (1 <= p[0] <= 4) || p[0] == 17 || p[0] == 23,
    ensures
        spec_response_body(spec_decode_response(p)->Ok_0) == Ok::<Seq<u8>, Error>(p),
{
    if p[0] <= 2 {
        lemma_bits_reencode(p.skip(2));
    } else if p[0] != 17 {
        lemma_regs_reencode(p.skip(2));
    }
    lemma_counted_reencode(p);
}

/// Response codes whose layout is fixed by the code alone.
pub open spec fn fixed_response_code(c: u8) -> bool {
    c == 5 || c == 6 || c == 7 || c == 11 || c == 15 || c == 16 || c == 22
}

/// A decoded response with a fixed layout re-encodes to the PDU.
#[verifier::spinoff_prover]
proof fn lemma_fixed_response_reencode(p: Seq<u8>)
    requires
        spec_decode_response(p) is Ok,
        fixed_response_code(p[0]),
    ensures
        spec_response_body(spec_decode_response(p)->Ok_0) == Ok::<Seq<u8>, Error>(p),
{
    if p[0] == 7 {
        assert(seq![p[0], p[1]] =~= p);
    } else if p[0] == 22 {
        lemma_three_words(p);
    } else {
        lemma_two_words(p);
    }
}

/// A decoded Diagnostics response re-encodes to the PDU.
#[verifier::spinoff_prover]
proof fn lemma_diagnostics_response_reencode(p: Seq<u8>)
    requires
        spec_decode_response(p) is Ok,
        p[0] == 8,
    ensures
        spec_response_body(spec_decode_response(p)->Ok_0) == Ok::<Seq<u8>, Error>(p),
{
    lemma_sub_function_decode_encode(u16_at(p, 1));
    lemma_diagnostics_reencode(p);
}

/// A decoded Get Comm Event Log response re-encodes to the PDU.
#[verifier::spinoff_prover]
proof fn lemma_event_log_reencode(p: Seq<u8>)
    requires
        spec_decode_response(p) is Ok,
        p[0] == 12,
    ensures
        spec_response_body(spec_decode_response(p)->Ok_0) == Ok::<Seq<u8>, Error>(p),
{
    lemma_be16_u16_at(p, 2);
    lemma_be16_u16_at(p, 4);
    lemma_be16_u16_at(p, 6);
    assert(seq![p[0], p[1]] + p.subrange(2, 4) + p.subrange(4, 6) + p.subrange(6, 8) + p.skip(8) =~= p);
}

/// A decoded file record response re-encodes to the PDU.
#[verifier::spinoff_prover]
proof fn lemma_file_response_reencode(p: Seq<u8>)
    requires
        spec_decode_response(p) is Ok,
        p[0] == 20 || p[0] == 21,
    ensures
        spec_response_body(spec_decode_response(p)->Ok_0) == Ok::<Seq<u8>, Error>(p),
{
    if p[0] == 20 {
        lemma_decode_read_responses_reencode(p);
    } else {
        lemma_decode_write_records_reencode(p);
    }
    assert(seq![p[0]] + p.subrange(1, 2 + p[1]) =~= p);
}

/// A decoded Read FIFO Queue response re-encodes to the PDU.
#[verifier::spinoff_prover]
proof fn lemma_fifo_reencode(p: Seq<u8>)
    requires
        spec_decode_response(p) is Ok,
        p[0] == 24,
    ensures
        spec_response_body(spec_decode_response(p)->Ok_0) == Ok::<Seq<u8>, Error>(p),
{
    let count = u16_at(p, 3) as int;
    let d = p.subrange(5, 5 + 2 * count);
    lemma_regs_reencode(d);
    lemma_be16_u16_at(p, 1);
    lemma_be16_u16_at(p, 3);
    assert(seq![p[0]] + p.subrange(1, 3) + p.subrange(3, 5) + d =~= p);
}

/// A decoded response with an opaque body re-encodes to the PDU: the
/// encapsulated transport and the custom codes.
#[verifier::spinoff_prover]
proof fn lemma_opaque_response_reencode(p: Seq<u8>)
    requires
        spec_decode_response(p) is Ok,
        p[0] < 0x80,
        p[0] == 43 || !is_named_function_byte(p[0]),
    ensures
        spec_response_body(spec_decode_response(p)->Ok_0) == Ok::<Seq<u8>, Error>(p),
{
    lemma_function_code_decode_encode(p[0]);
    if p[0] == 43 {
        lemma_mei_response_reencode(p);
    }
    assert(seq![p[0]] + p.skip(1) =~= p);
}

/// The body of a response PDU that decoded, with no exception bit set,
/// re-encodes to the PDU.
#[verifier::spinoff_prover]
proof fn lemma_response_body_reencode(p: Seq<u8>)
    requires
        spec_decode_response(p) is Ok,
        p[0] < 0x80,
    ensures
        spec_response_body(spec_decode_response(p)->Ok_0) == Ok::<Seq<u8>, Error>(p),
{
    let c = p[0];
    if (1 <= c <= 4) || c == 17 || c == 23 {
        lemma_counted_response_reencode(p);
    } else if fixed_response_code(c) {
        lemma_fixed_response_reencode(p);
    } else if c == 8 {
        lemma_diagnostics_response_reencode(p);
    } else if c == 12 {
        lemma_event_log_reencode(p);
    } else if c == 20 || c == 21 {
        lemma_file_response_reencode(p);
    } else if c == 24 {
        lemma_fifo_reencode(p);
    } else {
        lemma_opaque_response_reencode(p);
    }
}

/// Whatever the response decoder accepts, of any length, re-encodes to the
/// identical byte sequence.
#[verifier::spinoff_prover]
pub proof fn lemma_response_reencodes(p: Seq<u8>)
    requires
        spec_decode_response(p) is Ok,
    ensures
        spec_encode_response(spec_decode_response(p)->Ok_0) == Ok::<Seq<u8>, Error>(p),
{
    if p[0] >= 0x80 {
        lemma_exception_response_reencodes(p);
    } else {
        lemma_response_body_reencode(p);
    }
}

} // verus!
