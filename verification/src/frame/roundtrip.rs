//! Decoding what was encoded gives back what was encoded: the encoders and
//! decoders are inverses on every value the encoder accepts, up to the two
//! representations the wire cannot tell apart.

use vstd::prelude::*;

use crate::error::{Error, Result};
use crate::frame::file::{
    read_request_bytes, spec_check_numbers, spec_decode_read_requests, spec_decode_read_responses,
    spec_decode_write_records, spec_encode_read_requests, spec_encode_read_responses,
    spec_encode_write_records, spec_parse_read_requests, spec_parse_read_responses,
    spec_parse_write_records, spec_read_requests_data, spec_read_response_bytes,
    spec_read_responses_data, spec_write_record_bytes, spec_write_records_data, FileRecordRead,
    FileRecordWriteModel,
};
use crate::frame::mei::{
    spec_decode_mei_request, spec_decode_mei_response, spec_encode_mei_request,
    spec_encode_mei_response, spec_encode_objects, spec_parse_objects, DeviceIdObjectModel,
    MeiRequestModel, MeiResponseModel, ReadDeviceIdCode,
};
use crate::frame::diagnostics::lemma_sub_function_encode_decode;
use crate::frame::exception::lemma_exception_response_roundtrip;
use crate::frame::function::FunctionCode;
use crate::frame::pdu_model::{RequestModel, ResponseModel};
use crate::frame::pdu_spec::{
    decode_counted, spec_decode_request, spec_decode_response, spec_encode_request,
    spec_encode_response, spec_request_body, spec_response_body, COIL_ON, MAX_PDU_LEN,
};
use crate::frame::value::RegisterValue;
use crate::frame::wire::{
    be16, bit_in, bit_of, byte_from_bits, pack_bits, packed_byte, packed_len, padding_clear,
    regs_bytes, regs_from, u16_at, unpack_bits, words_bytes, words_from,
};

verus! {

/// A word written big-endian reads back as the word.
#[verifier::spinoff_prover]
pub proof fn lemma_u16_at_be16(b: Seq<u8>, i: int, v: u16)
    requires
        0 <= i,
        i + 1 < b.len(),
        b.subrange(i, i + 2) == be16(v),
    ensures
        u16_at(b, i) == v,
{
    assert(b[i] == be16(v)[0]);
    assert(b[i + 1] == be16(v)[1]);
}

/// Registers written as byte pairs read back as the registers.
#[verifier::spinoff_prover]
pub proof fn lemma_regs_redecode(r: Seq<RegisterValue>)
    ensures
        regs_from(regs_bytes(r)) == r,
{
    let b = regs_bytes(r);
    assert forall|k: int| 0 <= k < r.len() implies #[trigger] regs_from(b)[k] == r[k] by {
        assert((2 * k) / 2 == k);
        assert((2 * k + 1) / 2 == k);
        assert((2 * k) % 2 == 0);
        assert((2 * k + 1) % 2 == 1);
        assert(b[2 * k] == (r[k].0 / 256) as u8);
        assert(b[2 * k + 1] == (r[k].0 % 256) as u8);
    }
    assert(regs_from(b) =~= r);
}

/// Words written as byte pairs read back as the words.
#[verifier::spinoff_prover]
pub proof fn lemma_words_redecode(w: Seq<u16>)
    ensures
        words_from(words_bytes(w)) == w,
{
    let r = w.map_values(|x: u16| RegisterValue(x));
    lemma_regs_redecode(r);
    let b = regs_bytes(r);
    assert forall|k: int| 0 <= k < w.len() implies #[trigger] words_from(b)[k] == w[k] by {
        assert(regs_from(b)[k] == r[k]);
    }
    assert(words_from(b) =~= w);
}

/// The bits of a packed byte, least significant first, are the bits it was
/// packed from.
#[verifier::spinoff_prover]
proof fn lemma_packed_byte_bits(b0: bool, b1: bool, b2: bool, b3: bool, b4: bool, b5: bool, b6: bool, b7: bool)
    ensures
        bit_in(byte_from_bits(b0, b1, b2, b3, b4, b5, b6, b7), 0) == b0,
        bit_in(byte_from_bits(b0, b1, b2, b3, b4, b5, b6, b7), 1) == b1,
        bit_in(byte_from_bits(b0, b1, b2, b3, b4, b5, b6, b7), 2) == b2,
        bit_in(byte_from_bits(b0, b1, b2, b3, b4, b5, b6, b7), 3) == b3,
        bit_in(byte_from_bits(b0, b1, b2, b3, b4, b5, b6, b7), 4) == b4,
        bit_in(byte_from_bits(b0, b1, b2, b3, b4, b5, b6, b7), 5) == b5,
        bit_in(byte_from_bits(b0, b1, b2, b3, b4, b5, b6, b7), 6) == b6,
        bit_in(byte_from_bits(b0, b1, b2, b3, b4, b5, b6, b7), 7) == b7,
{
    let x = byte_from_bits(b0, b1, b2, b3, b4, b5, b6, b7);
    assert(((x >> 0u8) & 1u8 == 1u8) == b0 && ((x >> 1u8) & 1u8 == 1u8) == b1 && ((x >> 2u8) & 1u8 == 1u8) == b2
        && ((x >> 3u8) & 1u8 == 1u8) == b3 && ((x >> 4u8) & 1u8 == 1u8) == b4 && ((x >> 5u8) & 1u8 == 1u8) == b5
        && ((x >> 6u8) & 1u8 == 1u8) == b6 && ((x >> 7u8) & 1u8 == 1u8) == b7) by (bit_vector)
        requires
            x == byte_from_bits(b0, b1, b2, b3, b4, b5, b6, b7),
    ;
}

/// A packed byte whose bits from `r` up were all false has those bits clear.
#[verifier::spinoff_prover]
proof fn lemma_packed_byte_padding(b0: bool, b1: bool, b2: bool, b3: bool, b4: bool, b5: bool, b6: bool, b7: bool, r: u8)
    requires
        1 <= r < 8,
        r <= 1 ==> !b1,
        r <= 2 ==> !b2,
        r <= 3 ==> !b3,
        r <= 4 ==> !b4,
        r <= 5 ==> !b5,
        r <= 6 ==> !b6,
        !b7,
    ensures
        byte_from_bits(b0, b1, b2, b3, b4, b5, b6, b7) >> r == 0,
{
    let x = byte_from_bits(b0, b1, b2, b3, b4, b5, b6, b7);
    assert(x >> r == 0) by (bit_vector)
        requires
            x == byte_from_bits(b0, b1, b2, b3, b4, b5, b6, b7),
            1 <= r < 8,
            r <= 1 ==> !b1,
            r <= 2 ==> !b2,
            r <= 3 ==> !b3,
            r <= 4 ==> !b4,
            r <= 5 ==> !b5,
            r <= 6 ==> !b6,
            !b7,
    ;
}

/// Bit `i` of a packed run unpacks as the bit that was packed there, false
/// past the run's end.
#[verifier::spinoff_prover]
proof fn lemma_unpack_pack_bit(bits: Seq<bool>, i: int)
    requires
        0 <= i < 8 * packed_len(bits.len() as int),
    ensures
        unpack_bits(pack_bits(bits))[i] == bit_of(bits, i),
{
    let j = i / 8;
    let k = i % 8;
    assert(i == 8 * j + k);
    lemma_packed_byte_bits(
        bit_of(bits, 8 * j),
        bit_of(bits, 8 * j + 1),
        bit_of(bits, 8 * j + 2),
        bit_of(bits, 8 * j + 3),
        bit_of(bits, 8 * j + 4),
        bit_of(bits, 8 * j + 5),
        bit_of(bits, 8 * j + 6),
        bit_of(bits, 8 * j + 7),
    );
}

/// Packed bits unpack to the bits, then padding; the padding is clear.
#[verifier::spinoff_prover]
pub proof fn lemma_bits_redecode(bits: Seq<bool>)
    ensures
        unpack_bits(pack_bits(bits)).take(bits.len() as int) == bits,
        unpack_bits(pack_bits(bits)).len() == 8 * packed_len(bits.len() as int),
        padding_clear(pack_bits(bits), bits.len() as int),
        bits.len() % 8 == 0 ==> unpack_bits(pack_bits(bits)) == bits,
{
    let u = unpack_bits(pack_bits(bits));
    let n = bits.len() as int;
    assert forall|i: int| 0 <= i < n implies #[trigger] u[i] == bits[i] by {
        lemma_unpack_pack_bit(bits, i);
    }
    assert(u.take(n) =~= bits);
    if n % 8 == 0 {
        assert(u =~= bits);
    }
    let p = pack_bits(bits);
    if n % 8 != 0 && p.len() > 0 {
        let j = p.len() - 1;
        let r = (n % 8) as u8;
        assert(n == 8 * j + r);
        lemma_packed_byte_padding(
            bit_of(bits, 8 * j),
            bit_of(bits, 8 * j + 1),
            bit_of(bits, 8 * j + 2),
            bit_of(bits, 8 * j + 3),
            bit_of(bits, 8 * j + 4),
            bit_of(bits, 8 * j + 5),
            bit_of(bits, 8 * j + 6),
            bit_of(bits, 8 * j + 7),
            r,
        );
    }
}

// ---------------------------------------------------------------------------
// File records.

/// The tail of a sequence from `pos` that is two runs back to back holds the
/// first run at `pos` and the second after it.
#[verifier::spinoff_prover]
proof fn lemma_split_at(r: Seq<u8>, pos: int, a: Seq<u8>, b: Seq<u8>)
    requires
        0 <= pos <= r.len(),
        r.subrange(pos, r.len() as int) == a + b,
    ensures
        pos + a.len() <= r.len(),
        r.subrange(pos, pos + a.len()) == a,
        r.subrange(pos + a.len(), r.len() as int) == b,
{
    let w = r.subrange(pos, r.len() as int);
    assert(w.len() == a.len() + b.len());
    assert forall|i: int| 0 <= i < a.len() implies #[trigger] r.subrange(pos, pos + a.len())[i] == a[i] by {
        assert(w[i] == (a + b)[i]);
    }
    assert forall|i: int| 0 <= i < b.len() implies #[trigger] r.subrange(pos + a.len(), r.len() as int)[i] == b[i] by {
        assert(w[a.len() + i] == (a + b)[a.len() + i]);
    }
    assert(r.subrange(pos, pos + a.len()) =~= a);
    assert(r.subrange(pos + a.len(), r.len() as int) =~= b);
}

/// Two bytes inside a run taken from `r` at `pos` are the run's bytes.
#[verifier::spinoff_prover]
proof fn lemma_word_in(r: Seq<u8>, pos: int, a: Seq<u8>, i: int, v: u16)
    requires
        0 <= pos,
        pos + a.len() <= r.len(),
        r.subrange(pos, pos + a.len()) == a,
        0 <= i,
        i + 2 <= a.len(),
        a.subrange(i, i + 2) == be16(v),
    ensures
        u16_at(r, pos + i) == v,
{
    assert(r[pos + i] == a[i]);
    assert(r[pos + i + 1] == a[i + 1]);
    assert(a[i] == be16(v)[0]);
    assert(a[i + 1] == be16(v)[1]);
}

/// The bytes of read sub-requests are seven per sub-request.
#[verifier::spinoff_prover]
proof fn lemma_read_requests_len(recs: Seq<FileRecordRead>)
    requires
        spec_read_requests_data(recs) is Ok,
    ensures
        spec_read_requests_data(recs)->Ok_0.len() == 7 * recs.len(),
    decreases recs.len(),
{
    if recs.len() > 0 {
        lemma_read_requests_len(recs.drop_first());
    }
}

/// A region holding the bytes of read sub-requests from `pos` parses back to
/// those sub-requests.
#[verifier::spinoff_prover]
proof fn lemma_read_requests_redecode(r: Seq<u8>, pos: int, recs: Seq<FileRecordRead>)
    requires
        0 <= pos <= r.len(),
        spec_read_requests_data(recs) == Ok::<Seq<u8>, Error>(r.subrange(pos, r.len() as int)),
    ensures
        spec_parse_read_requests(r, pos) == Ok::<Seq<FileRecordRead>, Error>(recs),
    decreases recs.len(),
{
    if recs.len() == 0 {
        assert(recs =~= seq![]);
        assert(spec_read_requests_data(recs) == Ok::<Seq<u8>, Error>(Seq::<u8>::empty()));
        assert(r.subrange(pos, r.len() as int).len() == 0);
    } else {
        let rec = recs[0];
        let rest = spec_read_requests_data(recs.drop_first())->Ok_0;
        let rb = read_request_bytes(rec);
        lemma_split_at(r, pos, rb, rest);
        assert(r[pos] == rb[0]);
        assert(rb.subrange(1, 3) =~= be16(rec.file_number.0));
        assert(rb.subrange(3, 5) =~= be16(rec.record_number.0));
        assert(rb.subrange(5, 7) =~= be16(rec.record_length.0));
        lemma_word_in(r, pos, rb, 1, rec.file_number.0);
        lemma_word_in(r, pos, rb, 3, rec.record_number.0);
        lemma_word_in(r, pos, rb, 5, rec.record_length.0);
        lemma_read_requests_redecode(r, pos + 7, recs.drop_first());
        assert(recs =~= seq![rec] + recs.drop_first());
    }
}

/// An encoded Read File Record request body, behind any code byte, decodes
/// back to its sub-requests with nothing after them.
#[verifier::spinoff_prover]
pub proof fn lemma_read_requests_redecode_body(c: u8, recs: Seq<FileRecordRead>)
    requires
        spec_encode_read_requests(recs) is Ok,
    ensures
        ({
            let p = seq![c] + spec_encode_read_requests(recs)->Ok_0;
            &&& spec_decode_read_requests(p) == Ok::<Seq<FileRecordRead>, Error>(recs)
            &&& p.len() == 2 + p[1]
        }),
{
    let data = spec_read_requests_data(recs)->Ok_0;
    let p = seq![c] + spec_encode_read_requests(recs)->Ok_0;
    lemma_read_requests_len(recs);
    let region = p.subrange(2, 2 + p[1] as int);
    assert(region =~= data);
    assert(region.subrange(0, region.len() as int) =~= region);
    lemma_read_requests_redecode(region, 0, recs);
}

/// A region holding the bytes of read sub-responses from `pos` parses back to
/// those sub-responses.
#[verifier::spinoff_prover]
proof fn lemma_read_responses_redecode(r: Seq<u8>, pos: int, recs: Seq<Seq<RegisterValue>>)
    requires
        0 <= pos <= r.len(),
        spec_read_responses_data(recs) == Ok::<Seq<u8>, Error>(r.subrange(pos, r.len() as int)),
    ensures
        spec_parse_read_responses(r, pos) == Ok::<Seq<Seq<RegisterValue>>, Error>(recs),
    decreases recs.len(),
{
    if recs.len() == 0 {
        assert(recs =~= seq![]);
        assert(spec_read_responses_data(recs) == Ok::<Seq<u8>, Error>(Seq::<u8>::empty()));
        assert(r.subrange(pos, r.len() as int).len() == 0);
    } else {
        let values = recs[0];
        let first = spec_read_response_bytes(values)->Ok_0;
        let rest = spec_read_responses_data(recs.drop_first())->Ok_0;
        let data = regs_bytes(values);
        lemma_split_at(r, pos, first, rest);
        let next = pos + first.len();
        assert(first.len() == 2 + data.len());
        assert(r[pos] == first[0]);
        assert(r[pos + 1] == first[1]);
        assert(r[pos] == data.len() + 1);
        assert(data.len() == 2 * values.len());
        assert(r[pos] % 2 == 1);
        assert(pos + 1 + r[pos] == next);
        assert(r.subrange(pos + 2, next) =~= first.subrange(2, first.len() as int));
        assert(first.subrange(2, first.len() as int) =~= data);
        lemma_regs_redecode(values);
        lemma_read_responses_redecode(r, next, recs.drop_first());
        assert(recs =~= seq![values] + recs.drop_first());
    }
}

/// An encoded Read File Record response body, behind any code byte, decodes
/// back to its sub-responses with nothing after them.
#[verifier::spinoff_prover]
pub proof fn lemma_read_responses_redecode_body(c: u8, recs: Seq<Seq<RegisterValue>>)
    requires
        spec_encode_read_responses(recs) is Ok,
    ensures
        ({
            let p = seq![c] + spec_encode_read_responses(recs)->Ok_0;
            &&& spec_decode_read_responses(p) == Ok::<Seq<Seq<RegisterValue>>, Error>(recs)
            &&& p.len() == 2 + p[1]
        }),
{
    let data = spec_read_responses_data(recs)->Ok_0;
    let p = seq![c] + spec_encode_read_responses(recs)->Ok_0;
    let region = p.subrange(2, 2 + p[1] as int);
    assert(region =~= data);
    assert(region.subrange(0, region.len() as int) =~= region);
    lemma_read_responses_redecode(region, 0, recs);
}

/// A region holding the bytes of write records from `pos` parses back to
/// those records.
#[verifier::spinoff_prover]
proof fn lemma_write_records_redecode(r: Seq<u8>, pos: int, recs: Seq<FileRecordWriteModel>)
    requires
        0 <= pos <= r.len(),
        spec_write_records_data(recs) == Ok::<Seq<u8>, Error>(r.subrange(pos, r.len() as int)),
    ensures
        spec_parse_write_records(r, pos) == Ok::<Seq<FileRecordWriteModel>, Error>(recs),
    decreases recs.len(),
{
    if recs.len() == 0 {
        assert(recs =~= seq![]);
        assert(spec_write_records_data(recs) == Ok::<Seq<u8>, Error>(Seq::<u8>::empty()));
        assert(r.subrange(pos, r.len() as int).len() == 0);
    } else {
        let rec = recs[0];
        let first = spec_write_record_bytes(rec)->Ok_0;
        let rest = spec_write_records_data(recs.drop_first())->Ok_0;
        let l = rec.values.len() as int;
        lemma_split_at(r, pos, first, rest);
        let next = pos + first.len();
        assert(first.len() == 7 + 2 * l);
        assert(r[pos] == first[0]);
        assert(first.subrange(1, 3) =~= be16(rec.file_number.0));
        assert(first.subrange(3, 5) =~= be16(rec.record_number.0));
        assert(first.subrange(5, 7) =~= be16(l as u16));
        lemma_word_in(r, pos, first, 1, rec.file_number.0);
        lemma_word_in(r, pos, first, 3, rec.record_number.0);
        lemma_word_in(r, pos, first, 5, l as u16);
        assert(r.subrange(pos + 7, next) =~= first.subrange(7, first.len() as int));
        assert(first.subrange(7, first.len() as int) =~= regs_bytes(rec.values));
        lemma_regs_redecode(rec.values);
        lemma_write_records_redecode(r, next, recs.drop_first());
        assert(recs =~= seq![rec] + recs.drop_first());
    }
}

/// An encoded Write File Record body, behind any code byte, decodes back to
/// its records with nothing after them.
#[verifier::spinoff_prover]
pub proof fn lemma_write_records_redecode_body(c: u8, recs: Seq<FileRecordWriteModel>)
    requires
        spec_encode_write_records(recs) is Ok,
    ensures
        ({
            let p = seq![c] + spec_encode_write_records(recs)->Ok_0;
            &&& spec_decode_write_records(p) == Ok::<Seq<FileRecordWriteModel>, Error>(recs)
            &&& p.len() == 2 + p[1]
        }),
{
    let data = spec_write_records_data(recs)->Ok_0;
    let p = seq![c] + spec_encode_write_records(recs)->Ok_0;
    let region = p.subrange(2, 2 + p[1] as int);
    assert(region =~= data);
    assert(region.subrange(0, region.len() as int) =~= region);
    lemma_write_records_redecode(region, 0, recs);
}

// ---------------------------------------------------------------------------
// Encapsulated interface transport.

/// Whether an MEI body's model is the one its bytes decode to: a body of
/// MEI type 13 or 14 carried opaquely decodes as the named type instead.
pub open spec fn canonical_mei_request(m: MeiRequestModel) -> bool {
    m matches MeiRequestModel::Other { mei_type, .. } ==> mei_type != 13 && mei_type != 14
}

/// Whether an MEI response body's model is the one its bytes decode to.
pub open spec fn canonical_mei_response(m: MeiResponseModel) -> bool {
    m matches MeiResponseModel::Other { mei_type, .. } ==> mei_type != 13 && mei_type != 14
}

/// An encoded MEI request body, behind any code byte, decodes back.
#[verifier::spinoff_prover]
pub proof fn lemma_mei_request_redecode(c: u8, m: MeiRequestModel)
    requires
        canonical_mei_request(m),
    ensures
        spec_decode_mei_request(seq![c] + spec_encode_mei_request(m)) == Ok::<MeiRequestModel, Error>(m),
{
    let p = seq![c] + spec_encode_mei_request(m);
    match m {
        MeiRequestModel::CanOpen { data } => {
            assert(p.skip(2) =~= data);
        },
        MeiRequestModel::ReadDeviceIdentification { read_device_id_code, object_id } => {},
        MeiRequestModel::Other { mei_type, data } => {
            assert(p.skip(2) =~= data);
        },
    }
}

/// The bytes of identification objects from `pos` parse back to them.
#[verifier::spinoff_prover]
proof fn lemma_objects_redecode(r: Seq<u8>, pos: int, objects: Seq<DeviceIdObjectModel>)
    requires
        0 <= pos <= r.len(),
        spec_encode_objects(objects) == Ok::<Seq<u8>, Error>(r.subrange(pos, r.len() as int)),
    ensures
        spec_parse_objects(r, pos) == Ok::<Seq<DeviceIdObjectModel>, Error>(objects),
    decreases objects.len(),
{
    if objects.len() == 0 {
        assert(objects =~= seq![]);
        assert(spec_encode_objects(objects) == Ok::<Seq<u8>, Error>(Seq::<u8>::empty()));
        assert(r.subrange(pos, r.len() as int).len() == 0);
    } else {
        let o = objects[0];
        let rest = spec_encode_objects(objects.drop_first())->Ok_0;
        assert(o.value.len() <= 255);
        let first = seq![o.id, o.value.len() as u8] + o.value;
        assert(spec_encode_objects(objects)->Ok_0 == first + rest);
        lemma_split_at(r, pos, first, rest);
        let next = pos + first.len();
        assert(r[pos] == first[0]);
        assert(r[pos + 1] == first[1]);
        assert(r.subrange(pos + 2, next) =~= first.subrange(2, first.len() as int));
        assert(first.subrange(2, first.len() as int) =~= o.value);
        assert(r[pos + 1] as int == o.value.len());
        assert(pos + 2 + r[pos + 1] == next);
        lemma_objects_redecode(r, next, objects.drop_first());
        assert(objects =~= seq![o] + objects.drop_first());
    }
}

/// An encoded MEI response body, behind any code byte, decodes back.
#[verifier::spinoff_prover]
pub proof fn lemma_mei_response_redecode(c: u8, m: MeiResponseModel)
    requires
        canonical_mei_response(m),
        spec_encode_mei_response(m) is Ok,
    ensures
        spec_decode_mei_response(seq![c] + spec_encode_mei_response(m)->Ok_0) == Ok::<MeiResponseModel, Error>(m),
{
    let p = seq![c] + spec_encode_mei_response(m)->Ok_0;
    match m {
        MeiResponseModel::CanOpen { data } => {
            assert(p.skip(2) =~= data);
        },
        MeiResponseModel::ReadDeviceIdentification { objects, .. } => {
            let body = spec_encode_objects(objects)->Ok_0;
            let r = p.skip(7);
            assert(r =~= body);
            assert(r.subrange(0, r.len() as int) =~= r);
            lemma_objects_redecode(r, 0, objects);
        },
        MeiResponseModel::Other { mei_type, data } => {
            assert(p.skip(2) =~= data);
        },
    }
}

// ---------------------------------------------------------------------------
// Whole PDUs.

/// Whether a request's model is the one its bytes decode to.
pub open spec fn canonical_request(m: RequestModel) -> bool {
    m matches RequestModel::EncapsulatedInterfaceTransport(mei) ==> canonical_mei_request(mei)
}

/// Whether a response's model is the one its bytes decode to: a bit run
/// whose length is not a whole number of bytes decodes with its padding, and
/// an MEI body of type 13 or 14 carried opaquely decodes as the named type.
pub open spec fn canonical_response(m: ResponseModel) -> bool {
    match m {
        ResponseModel::ReadCoils { coils } => coils.len() % 8 == 0,
        ResponseModel::ReadDiscreteInputs { inputs } => inputs.len() % 8 == 0,
        ResponseModel::EncapsulatedInterfaceTransport(mei) => canonical_mei_response(mei),
        _ => true,
    }
}

/// A code byte and two words read back as the words.
#[verifier::spinoff_prover]
proof fn lemma_two_words_read(b: Seq<u8>, c: u8, v1: u16, v2: u16)
    requires
        b == seq![c] + be16(v1) + be16(v2),
    ensures
        b.len() == 5,
        b[0] == c,
        u16_at(b, 1) == v1,
        u16_at(b, 3) == v2,
{
    assert(b.subrange(1, 3) =~= be16(v1));
    assert(b.subrange(3, 5) =~= be16(v2));
    lemma_u16_at_be16(b, 1, v1);
    lemma_u16_at_be16(b, 3, v2);
}

/// A code byte and three words read back as the words.
#[verifier::spinoff_prover]
proof fn lemma_three_words_read(b: Seq<u8>, c: u8, v1: u16, v2: u16, v3: u16)
    requires
        b == seq![c] + be16(v1) + be16(v2) + be16(v3),
    ensures
        b.len() == 7,
        b[0] == c,
        u16_at(b, 1) == v1,
        u16_at(b, 3) == v2,
        u16_at(b, 5) == v3,
{
    assert(b.subrange(1, 3) =~= be16(v1));
    assert(b.subrange(3, 5) =~= be16(v2));
    assert(b.subrange(5, 7) =~= be16(v3));
    lemma_u16_at_be16(b, 1, v1);
    lemma_u16_at_be16(b, 3, v2);
    lemma_u16_at_be16(b, 5, v3);
}

/// A Diagnostics body reads back as its sub-function code and data words.
#[verifier::spinoff_prover]
proof fn lemma_diagnostics_read(b: Seq<u8>, raw: u16, data: Seq<u16>)
    requires
        b == seq![8u8] + be16(raw) + words_bytes(data),
    ensures
        b.len() >= 3,
        (b.len() - 3) % 2 == 0,
        u16_at(b, 1) == raw,
        words_from(b.skip(3)) == data,
{
    assert(b.subrange(1, 3) =~= be16(raw));
    lemma_u16_at_be16(b, 1, raw);
    assert(b.skip(3) =~= words_bytes(data));
    lemma_words_redecode(data);
}

/// The head of a write request: code, address, quantity, count byte.
#[verifier::spinoff_prover]
proof fn lemma_write_head_read(b: Seq<u8>, c: u8, a: u16, q: u16, count: u8, data: Seq<u8>)
    requires
        b == seq![c] + be16(a) + be16(q) + seq![count] + data,
    ensures
        b.len() == 6 + data.len(),
        b[0] == c,
        u16_at(b, 1) == a,
        u16_at(b, 3) == q,
        b[5] == count,
        b.subrange(6, 6 + data.len() as int) == data,
{
    assert(b.subrange(1, 3) =~= be16(a));
    assert(b.subrange(3, 5) =~= be16(q));
    lemma_u16_at_be16(b, 1, a);
    lemma_u16_at_be16(b, 3, q);
    assert(b.subrange(6, 6 + data.len() as int) =~= data);
}

/// Request variants whose body is nested or opaque.
pub open spec fn nested_request(m: RequestModel) -> bool {
    m is ReadFileRecord || m is WriteFileRecord || m is ReadWriteMultipleRegisters
        || m is EncapsulatedInterfaceTransport || m is Custom
}

/// Request variants that write a run of coils or registers, or diagnose.
pub open spec fn run_request(m: RequestModel) -> bool {
    m is WriteMultipleCoils || m is WriteMultipleRegisters || m is Diagnostics
}

/// An encoded request decodes back to its model: requests with a fixed
/// layout.
#[verifier::rlimit(60)]
#[verifier::spinoff_prover]
proof fn lemma_request_redecode_fixed(m: RequestModel)
    requires
        spec_encode_request(m) is Ok,
        !nested_request(m),
        !run_request(m),
    ensures
        spec_decode_request(spec_request_body(m)->Ok_0) == Ok::<RequestModel, Error>(m),
{
    let b = spec_request_body(m)->Ok_0;
    match m {
        RequestModel::ReadCoils { address, quantity } => lemma_two_words_read(b, 1, address.0, quantity.0),
        RequestModel::ReadDiscreteInputs { address, quantity } => lemma_two_words_read(b, 2, address.0, quantity.0),
        RequestModel::ReadHoldingRegisters { address, quantity } => lemma_two_words_read(b, 3, address.0, quantity.0),
        RequestModel::ReadInputRegisters { address, quantity } => lemma_two_words_read(b, 4, address.0, quantity.0),
        RequestModel::WriteSingleCoil { address, value } => {
            lemma_two_words_read(b, 5, address.0, crate::frame::pdu_spec::coil_word(value));
        },
        RequestModel::WriteSingleRegister { address, value } => lemma_two_words_read(b, 6, address.0, value.0),
        RequestModel::MaskWriteRegister { address, and_mask, or_mask } => {
            lemma_three_words_read(b, 22, address.0, and_mask.0, or_mask.0);
        },
        RequestModel::ReadFifoQueue { address } => {
            assert(b.subrange(1, 3) =~= be16(address.0));
            lemma_u16_at_be16(b, 1, address.0);
        },
        _ => {},
    }
}

/// An encoded request decodes back to its model: requests that carry a run.
#[verifier::rlimit(60)]
#[verifier::spinoff_prover]
proof fn lemma_request_redecode_run(m: RequestModel)
    requires
        spec_encode_request(m) is Ok,
        run_request(m),
    ensures
        spec_decode_request(spec_request_body(m)->Ok_0) == Ok::<RequestModel, Error>(m),
{
    let b = spec_request_body(m)->Ok_0;
    match m {
        RequestModel::Diagnostics { sub_function, data } => {
            let raw = sub_function.spec_encode()->Ok_0;
            lemma_diagnostics_read(b, raw, data);
            lemma_sub_function_encode_decode(sub_function);
        },
        RequestModel::WriteMultipleCoils { address, coils } => {
            let q = coils.len() as int;
            lemma_write_head_read(b, 15, address.0, q as u16, packed_len(q) as u8, pack_bits(coils));
            lemma_bits_redecode(coils);
        },
        RequestModel::WriteMultipleRegisters { address, registers } => {
            lemma_write_head_read(b, 16, address.0, registers.len() as u16, (2 * registers.len()) as u8, regs_bytes(registers));
            lemma_regs_redecode(registers);
        },
        _ => {},
    }
}

/// An encoded request decodes back to its model: requests with nested or
/// opaque bodies.
#[verifier::rlimit(60)]
#[verifier::spinoff_prover]
proof fn lemma_request_redecode_nested(m: RequestModel)
    requires
        spec_encode_request(m) is Ok,
        canonical_request(m),
        nested_request(m),
    ensures
        spec_decode_request(spec_request_body(m)->Ok_0) == Ok::<RequestModel, Error>(m),
{
    let b = spec_request_body(m)->Ok_0;
    match m {
        RequestModel::ReadFileRecord { records } => {
            lemma_read_requests_redecode_body(20, records);
        },
        RequestModel::WriteFileRecord { records } => {
            lemma_write_records_redecode_body(21, records);
        },
        RequestModel::ReadWriteMultipleRegisters { read_address, read_quantity, write_address, registers } => {
            let head = seq![23u8] + be16(read_address.0) + be16(read_quantity.0) + be16(write_address.0);
            let w = registers.len() as u16;
            assert(b == head + be16(w) + seq![(2 * registers.len()) as u8] + regs_bytes(registers));
            assert(b.subrange(0, 7) =~= head);
            lemma_three_words_read(head, 23, read_address.0, read_quantity.0, write_address.0);
            assert(b[1] == head[1] && b[2] == head[2] && b[3] == head[3] && b[4] == head[4] && b[5] == head[5] && b[6] == head[6]);
            assert(b.subrange(7, 9) =~= be16(w));
            lemma_u16_at_be16(b, 7, w);
            assert(b.subrange(10, b.len() as int) =~= regs_bytes(registers));
            lemma_regs_redecode(registers);
        },
        RequestModel::EncapsulatedInterfaceTransport(mei) => {
            lemma_mei_request_redecode(43, mei);
        },
        RequestModel::Custom { code, data } => {
            assert(b.skip(1) =~= data);
        },
        _ => {},
    }
}

/// Decoding an encoded request gives back the request, for every request
/// whose model is the one its bytes stand for.
#[verifier::spinoff_prover]
pub proof fn lemma_request_redecodes(m: RequestModel)
    requires
        spec_encode_request(m) is Ok,
        canonical_request(m),
    ensures
        spec_decode_request(spec_encode_request(m)->Ok_0) == Ok::<RequestModel, Error>(m),
{
    if nested_request(m) {
        lemma_request_redecode_nested(m);
    } else if run_request(m) {
        lemma_request_redecode_run(m);
    } else {
        lemma_request_redecode_fixed(m);
    }
}

/// A counted run reads back as its data.
#[verifier::spinoff_prover]
proof fn lemma_counted_read(b: Seq<u8>, c: u8, data: Seq<u8>)
    requires
        data.len() <= 255,
        b == seq![c, data.len() as u8] + data,
    ensures
        b.len() >= 2,
        b.len() - 2 == b[1],
        b.skip(2) == data,
{
    assert(b.skip(2) =~= data);
}

/// Response variants whose body is a counted run.
pub open spec fn counted_response(m: ResponseModel) -> bool {
    m is ReadCoils || m is ReadDiscreteInputs || m is ReadHoldingRegisters || m is ReadInputRegisters
        || m is ReadWriteMultipleRegisters || m is ReportServerId
}

/// Response variants whose body is nested, opaque or exceptional.
pub open spec fn nested_response(m: ResponseModel) -> bool {
    m is ReadFileRecord || m is WriteFileRecord || m is ReadFifoQueue || m is EncapsulatedInterfaceTransport
        || m is Custom || m is Exception || m is GetCommEventLog || m is Diagnostics
}

/// An encoded bit-run response decodes back to its model.
#[verifier::spinoff_prover]
proof fn lemma_response_redecode_bits(m: ResponseModel)
    requires
        spec_encode_response(m) is Ok,
        canonical_response(m),
        m is ReadCoils || m is ReadDiscreteInputs,
    ensures
        spec_decode_response(spec_response_body(m)->Ok_0) == Ok::<ResponseModel, Error>(m),
{
    let b = spec_response_body(m)->Ok_0;
    match m {
        ResponseModel::ReadCoils { coils } => {
            lemma_bits_redecode(coils);
            lemma_counted_read(b, 1, pack_bits(coils));
        },
        ResponseModel::ReadDiscreteInputs { inputs } => {
            lemma_bits_redecode(inputs);
            lemma_counted_read(b, 2, pack_bits(inputs));
        },
        _ => {},
    }
}

/// A bit-run response as it reads back off the wire: its bits followed by
/// the clear padding of the last byte.
pub open spec fn padded_bits(m: ResponseModel) -> ResponseModel {
    match m {
        ResponseModel::ReadCoils { coils } => ResponseModel::ReadCoils { coils: unpack_bits(pack_bits(coils)) },
        ResponseModel::ReadDiscreteInputs { inputs } => ResponseModel::ReadDiscreteInputs {
            inputs: unpack_bits(pack_bits(inputs)),
        },
        other => other,
    }
}

/// The coils of an encoded Read Coils response read back with their padding.
#[verifier::spinoff_prover]
proof fn lemma_coils_read_back(coils: Seq<bool>)
    requires
        spec_encode_response(ResponseModel::ReadCoils { coils }) is Ok,
    ensures
        spec_decode_response(spec_encode_response(ResponseModel::ReadCoils { coils })->Ok_0)
            == Ok::<ResponseModel, Error>(ResponseModel::ReadCoils { coils: unpack_bits(pack_bits(coils)) }),
        spec_encode_response(ResponseModel::ReadCoils { coils })->Ok_0.len() == 2 + pack_bits(coils).len(),
{
    let m = ResponseModel::ReadCoils { coils };
    let data = pack_bits(coils);
    let b = spec_encode_response(m)->Ok_0;
    assert(b == spec_response_body(m)->Ok_0);
    lemma_counted_read(b, 1, data);
    assert(b.len() <= MAX_PDU_LEN);
    assert(FunctionCode::spec_decode(b[0]) == Ok::<FunctionCode, Error>(FunctionCode::ReadCoils));
    assert(decode_counted(b) == Ok::<Seq<u8>, Error>(data));
}

/// The inputs of an encoded Read Discrete Inputs response read back with
/// their padding.
#[verifier::spinoff_prover]
proof fn lemma_inputs_read_back(inputs: Seq<bool>)
    requires
        spec_encode_response(ResponseModel::ReadDiscreteInputs { inputs }) is Ok,
    ensures
        spec_decode_response(spec_encode_response(ResponseModel::ReadDiscreteInputs { inputs })->Ok_0)
            == Ok::<ResponseModel, Error>(ResponseModel::ReadDiscreteInputs { inputs: unpack_bits(pack_bits(inputs)) }),
        spec_encode_response(ResponseModel::ReadDiscreteInputs { inputs })->Ok_0.len() == 2 + pack_bits(inputs).len(),
{
    let m = ResponseModel::ReadDiscreteInputs { inputs };
    let data = pack_bits(inputs);
    let b = spec_encode_response(m)->Ok_0;
    assert(b == spec_response_body(m)->Ok_0);
    lemma_counted_read(b, 2, data);
    assert(b.len() <= MAX_PDU_LEN);
    assert(FunctionCode::spec_decode(b[0]) == Ok::<FunctionCode, Error>(FunctionCode::ReadDiscreteInputs));
    assert(decode_counted(b) == Ok::<Seq<u8>, Error>(data));
}

/// An encoded bit-run response decodes, whatever its length, to its bits
/// followed by the clear padding of the last byte: eight values for every
/// data byte, the first of them the bits encoded.
#[verifier::spinoff_prover]
pub proof fn lemma_bit_response_redecodes(m: ResponseModel)
    requires
        spec_encode_response(m) is Ok,
        m is ReadCoils || m is ReadDiscreteInputs,
    ensures
        spec_decode_response(spec_encode_response(m)->Ok_0) == Ok::<ResponseModel, Error>(padded_bits(m)),
        m matches ResponseModel::ReadCoils { coils } ==> unpack_bits(pack_bits(coils)).take(coils.len() as int)
            == coils && unpack_bits(pack_bits(coils)).len() == 8 * (spec_encode_response(m)->Ok_0.len() - 2),
        m matches ResponseModel::ReadDiscreteInputs { inputs } ==> unpack_bits(pack_bits(inputs)).take(
            inputs.len() as int,
        ) == inputs && unpack_bits(pack_bits(inputs)).len() == 8 * (spec_encode_response(m)->Ok_0.len() - 2),
{
    match m {
        ResponseModel::ReadCoils { coils } => {
            lemma_bits_redecode(coils);
            lemma_coils_read_back(coils);
        },
        ResponseModel::ReadDiscreteInputs { inputs } => {
            lemma_bits_redecode(inputs);
            lemma_inputs_read_back(inputs);
        },
        _ => {},
    }
}

/// An encoded ReadHoldingRegisters response decodes back to its model.
#[verifier::spinoff_prover]
proof fn lemma_redecode_holding(m: ResponseModel)
    requires
        spec_encode_response(m) is Ok,
        m is ReadHoldingRegisters,
    ensures
        spec_decode_response(spec_response_body(m)->Ok_0) == Ok::<ResponseModel, Error>(m),
{
    let b = spec_response_body(m)->Ok_0;
    if let ResponseModel::ReadHoldingRegisters { registers } = m {
        lemma_regs_redecode(registers);
        lemma_counted_read(b, 3, regs_bytes(registers));
    }
}

/// An encoded ReadInputRegisters response decodes back to its model.
#[verifier::spinoff_prover]
proof fn lemma_redecode_input(m: ResponseModel)
    requires
        spec_encode_response(m) is Ok,
        m is ReadInputRegisters,
    ensures
        spec_decode_response(spec_response_body(m)->Ok_0) == Ok::<ResponseModel, Error>(m),
{
    let b = spec_response_body(m)->Ok_0;
    if let ResponseModel::ReadInputRegisters { registers } = m {
        lemma_regs_redecode(registers);
        lemma_counted_read(b, 4, regs_bytes(registers));
    }
}

/// An encoded ReadWriteMultipleRegisters response decodes back to its model.
#[verifier::spinoff_prover]
proof fn lemma_redecode_read_write(m: ResponseModel)
    requires
        spec_encode_response(m) is Ok,
        m is ReadWriteMultipleRegisters,
    ensures
        spec_decode_response(spec_response_body(m)->Ok_0) == Ok::<ResponseModel, Error>(m),
{
    let b = spec_response_body(m)->Ok_0;
    if let ResponseModel::ReadWriteMultipleRegisters { registers } = m {
        lemma_regs_redecode(registers);
        lemma_counted_read(b, 23, regs_bytes(registers));
    }
}

/// An encoded ReportServerId response decodes back to its model.
#[verifier::spinoff_prover]
proof fn lemma_redecode_server_id(m: ResponseModel)
    requires
        spec_encode_response(m) is Ok,
        m is ReportServerId,
    ensures
        spec_decode_response(spec_response_body(m)->Ok_0) == Ok::<ResponseModel, Error>(m),
{
    let b = spec_response_body(m)->Ok_0;
    if let ResponseModel::ReportServerId { data } = m {
        lemma_counted_read(b, 17, data);
    }
}

/// An encoded response whose body is a counted run of registers or bytes
/// decodes back to its model.
#[verifier::spinoff_prover]
proof fn lemma_response_redecode_counted(m: ResponseModel)
    requires
        spec_encode_response(m) is Ok,
        counted_response(m),
        !(m is ReadCoils || m is ReadDiscreteInputs),
    ensures
        spec_decode_response(spec_response_body(m)->Ok_0) == Ok::<ResponseModel, Error>(m),
{
    if m is ReadHoldingRegisters {
        lemma_redecode_holding(m);
    } else if m is ReadInputRegisters {
        lemma_redecode_input(m);
    } else if m is ReadWriteMultipleRegisters {
        lemma_redecode_read_write(m);
    } else {
        lemma_redecode_server_id(m);
    }
}

/// An encoded response decodes back to its model: responses with a fixed
/// layout.
#[verifier::rlimit(60)]
#[verifier::spinoff_prover]
proof fn lemma_response_redecode_fixed(m: ResponseModel)
    requires
        spec_encode_response(m) is Ok,
        !counted_response(m),
        !nested_response(m),
    ensures
        spec_decode_response(spec_response_body(m)->Ok_0) == Ok::<ResponseModel, Error>(m),
{
    let b = spec_response_body(m)->Ok_0;
    match m {
        ResponseModel::WriteSingleCoil { address, value } => {
            lemma_two_words_read(b, 5, address.0, crate::frame::pdu_spec::coil_word(value));
        },
        ResponseModel::WriteSingleRegister { address, value } => lemma_two_words_read(b, 6, address.0, value.0),
        ResponseModel::ReadExceptionStatus { status } => {},
        ResponseModel::GetCommEventCounter { status, event_count } => lemma_two_words_read(b, 11, status, event_count),
        ResponseModel::WriteMultipleCoils { address, quantity } => lemma_two_words_read(b, 15, address.0, quantity.0),
        ResponseModel::WriteMultipleRegisters { address, quantity } => lemma_two_words_read(b, 16, address.0, quantity.0),
        ResponseModel::MaskWriteRegister { address, and_mask, or_mask } => {
            lemma_three_words_read(b, 22, address.0, and_mask.0, or_mask.0);
        },
        _ => {},
    }
}

/// An encoded response decodes back to its model: responses with nested,
/// opaque or exceptional bodies.
#[verifier::rlimit(60)]
#[verifier::spinoff_prover]
proof fn lemma_response_redecode_nested(m: ResponseModel)
    requires
        spec_encode_response(m) is Ok,
        canonical_response(m),
        nested_response(m),
    ensures
        spec_decode_response(spec_response_body(m)->Ok_0) == Ok::<ResponseModel, Error>(m),
{
    let b = spec_response_body(m)->Ok_0;
    match m {
        ResponseModel::Diagnostics { sub_function, data } => {
            let raw = sub_function.spec_encode()->Ok_0;
            lemma_diagnostics_read(b, raw, data);
            lemma_sub_function_encode_decode(sub_function);
        },
        ResponseModel::GetCommEventLog { status, event_count, message_count, events } => {
            let head = seq![12u8, (events.len() + 6) as u8] + be16(status) + be16(event_count) + be16(message_count);
            assert(b == head + events);
            assert(b.subrange(2, 4) =~= be16(status));
            assert(b.subrange(4, 6) =~= be16(event_count));
            assert(b.subrange(6, 8) =~= be16(message_count));
            lemma_u16_at_be16(b, 2, status);
            lemma_u16_at_be16(b, 4, event_count);
            lemma_u16_at_be16(b, 6, message_count);
            assert(b.skip(8) =~= events);
            assert(b.skip(2).len() >= 6);
        },
        ResponseModel::ReadFileRecord { records } => {
            lemma_read_responses_redecode_body(20, records);
        },
        ResponseModel::WriteFileRecord { records } => {
            lemma_write_records_redecode_body(21, records);
        },
        ResponseModel::ReadFifoQueue { values } => {
            let count = values.len() as u16;
            let head = seq![24u8] + be16((2 + 2 * values.len()) as u16) + be16(count);
            assert(b == head + regs_bytes(values));
            assert(b.subrange(1, 3) =~= be16((2 + 2 * values.len()) as u16));
            assert(b.subrange(3, 5) =~= be16(count));
            lemma_u16_at_be16(b, 1, (2 + 2 * values.len()) as u16);
            lemma_u16_at_be16(b, 3, count);
            assert(b.subrange(5, b.len() as int) =~= regs_bytes(values));
            lemma_regs_redecode(values);
        },
        ResponseModel::EncapsulatedInterfaceTransport(mei) => {
            lemma_mei_response_redecode(43, mei);
        },
        ResponseModel::Custom { code, data } => {
            assert(b.skip(1) =~= data);
        },
        ResponseModel::Exception(e) => {
            lemma_exception_response_roundtrip(e);
        },
        _ => {},
    }
}

/// Decoding an encoded response gives back the response, for every
/// response whose model is the one its bytes stand for.
#[verifier::spinoff_prover]
pub proof fn lemma_response_redecodes(m: ResponseModel)
    requires
        spec_encode_response(m) is Ok,
        canonical_response(m),
    ensures
        spec_decode_response(spec_encode_response(m)->Ok_0) == Ok::<ResponseModel, Error>(m),
{
    if nested_response(m) {
        lemma_response_redecode_nested(m);
    } else if m is ReadCoils || m is ReadDiscreteInputs {
        lemma_response_redecode_bits(m);
    } else if counted_response(m) {
        lemma_response_redecode_counted(m);
    } else {
        lemma_response_redecode_fixed(m);
    }
}

} // verus!
