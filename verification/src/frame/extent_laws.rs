//! The extent an RTU ADU is given on a byte stream agrees with the ADU the
//! encoder writes and the decoder accepts.

use vstd::prelude::*;

use crate::error::Error;
use crate::frame::framing::{request_adu, request_from_adu, response_adu, response_from_adu, Direction, Extent};
use crate::frame::mei::{spec_parse_objects, MeiRequestModel, MeiResponseModel};
use crate::frame::pdu_model::{RequestModel, ResponseModel};
use crate::frame::pdu_spec::{spec_decode_request, spec_decode_response, spec_encode_response};
use crate::frame::roundtrip::{canonical_request, canonical_response, lemma_bit_response_redecodes, padded_bits};
use crate::frame::rtu::{lemma_objects_end_after, lemma_rtu_wrap_splits, objects_end, spec_mei14_response_extent, request_pdu_len, response_pdu_len, spec_derive_extent, spec_rtu_split, PduLen, Rtu};
use crate::frame::value::UnitId;
use crate::frame::wire::u16_at;

verus! {

/// Whether a request's length follows from its function code and count
/// fields: not Diagnostics, not a custom code, and an encapsulated transport
/// only as device identification.
pub open spec fn derivable_request(m: RequestModel) -> bool {
    match m {
        RequestModel::Diagnostics { .. } | RequestModel::Custom { .. } => false,
        RequestModel::EncapsulatedInterfaceTransport(mei) => mei is ReadDeviceIdentification,
        _ => true,
    }
}

/// Whether a response's length follows from its function code and count
/// fields; an exception response always does.
pub open spec fn derivable_response(m: ResponseModel) -> bool {
    match m {
        ResponseModel::Diagnostics { .. } | ResponseModel::Custom { .. } => false,
        ResponseModel::EncapsulatedInterfaceTransport(mei) => mei is ReadDeviceIdentification,
        _ => true,
    }
}

/// The object walk over an ADU whose PDU's object list, from PDU offset 7,
/// parses as `objs` from position `pos` ends where that list ends.
#[verifier::spinoff_prover]
proof fn lemma_objects_end(b: Seq<u8>, r: Seq<u8>, pos: int)
    requires
        0 <= pos <= r.len(),
        b.len() == 1 + 7 + r.len() + 2,
        forall|i: int| 0 <= i < r.len() ==> b[1 + 7 + i] == #[trigger] r[i],
        spec_parse_objects(r, pos) is Ok,
    ensures
        objects_end(b, 7 + pos, spec_parse_objects(r, pos)->Ok_0.len()) == Some(7 + r.len() as int),
    decreases r.len() - pos,
{
    let objs = spec_parse_objects(r, pos)->Ok_0;
    if pos < r.len() {
        let next = pos + 2 + r[pos + 1];
        lemma_objects_end(b, r, next);
        assert(b[1 + (7 + pos) + 1] == r[pos + 1]);
        assert(objs.len() == spec_parse_objects(r, next)->Ok_0.len() + 1);
    }
}

/// The PDU of an RTU ADU sits between its address and its CRC.
#[verifier::spinoff_prover]
proof fn lemma_pdu_in_adu(b: Seq<u8>, p: Seq<u8>)
    requires
        b.len() >= 4,
        p == b.subrange(1, b.len() - 2),
    ensures
        forall|i: int| 0 <= i < p.len() ==> b[1 + i] == #[trigger] p[i],
        p.len() == b.len() - 3,
{
}

/// The extent of an RTU ADU carrying a decodable request whose length is
/// derivable is the whole ADU.
#[verifier::spinoff_prover]
#[verifier::rlimit(60)]
pub proof fn lemma_request_extent_agrees(b: Seq<u8>)
    requires
        request_from_adu::<Rtu>(b) is Ok,
        derivable_request(request_from_adu::<Rtu>(b)->Ok_0.1),
    ensures
        spec_derive_extent(Direction::Request, b) == Ok::<Extent, Error>(Extent::Complete(b.len() as usize)),
{
    let p = spec_rtu_split(b)->Ok_0.1;
    lemma_pdu_in_adu(b, p);
    assert(b[1] == p[0]);
    if p.len() >= 2 {
        assert(b[2] == p[1]);
    }
    if p.len() >= 6 {
        assert(b[6] == p[5]);
    }
    if p.len() >= 10 {
        assert(b[10] == p[9]);
    }
}

/// The extent of an RTU ADU carrying a decodable response whose length is
/// derivable is the whole ADU.
#[verifier::spinoff_prover]
#[verifier::rlimit(60)]
pub proof fn lemma_response_extent_agrees(b: Seq<u8>)
    requires
        response_from_adu::<Rtu>(b) is Ok,
        derivable_response(response_from_adu::<Rtu>(b)->Ok_0.1),
    ensures
        spec_derive_extent(Direction::Response, b) == Ok::<Extent, Error>(Extent::Complete(b.len() as usize)),
{
    let p = spec_rtu_split(b)->Ok_0.1;
    lemma_pdu_in_adu(b, p);
    assert(b[1] == p[0]);
    if p.len() >= 2 {
        assert(b[2] == p[1]);
    }
    if p.len() >= 3 {
        assert(b[3] == p[2]);
        assert(u16_at(b, 2) == u16_at(p, 1));
    }
    if p[0] == 0x2B && p.len() >= 7 && p[1] == 14 {
        let r = p.skip(7);
        assert forall|i: int| 0 <= i < r.len() implies b[1 + 7 + i] == #[trigger] r[i] by {
            assert(b[1 + (7 + i)] == p[7 + i]);
        }
        assert(b[7] == p[6]);
        if spec_parse_objects(r, 0) is Ok {
            lemma_objects_end(b, r, 0);
        }
    }
}

/// The extent derived from an ADU the encoder writes is that ADU, for every
/// request and response whose length is derivable.
#[verifier::spinoff_prover]
pub proof fn lemma_extent_agrees_with_encoder(a: UnitId, req: RequestModel, resp: ResponseModel)
    ensures
        request_adu::<Rtu>(a, req) is Ok && derivable_request(req)
            ==> spec_derive_extent(Direction::Request, request_adu::<Rtu>(a, req)->Ok_0)
                == Ok::<Extent, Error>(Extent::Complete(request_adu::<Rtu>(a, req)->Ok_0.len() as usize)),
        response_adu::<Rtu>(a, resp) is Ok && derivable_response(resp)
            ==> spec_derive_extent(Direction::Response, response_adu::<Rtu>(a, resp)->Ok_0)
                == Ok::<Extent, Error>(Extent::Complete(response_adu::<Rtu>(a, resp)->Ok_0.len() as usize)),
{
    crate::frame::adu_laws::lemma_rtu_adu_roundtrip(a, req, resp);
    if request_adu::<Rtu>(a, req) is Ok && derivable_request(req) {
        assert(canonical_request(req));
        lemma_request_extent_agrees(request_adu::<Rtu>(a, req)->Ok_0);
    }
    if response_adu::<Rtu>(a, resp) is Ok && derivable_response(resp) {
        if !canonical_response(resp) {
            let p = spec_encode_response(resp)->Ok_0;
            lemma_bit_response_redecodes(resp);
            lemma_rtu_wrap_splits(a, p);
            assert(derivable_response(padded_bits(resp)));
        }
        lemma_response_extent_agrees(response_adu::<Rtu>(a, resp)->Ok_0);
    }
}

/// Walking objects over a prefix either runs out of bytes or ends where the
/// walk over the whole ends.
#[verifier::spinoff_prover]
proof fn lemma_objects_end_prefix(b: Seq<u8>, k: int, offset: int, remaining: nat)
    requires
        0 <= k <= b.len(),
        offset >= 0,
    ensures
        objects_end(b.take(k), offset, remaining) is None
            || objects_end(b.take(k), offset, remaining) == objects_end(b, offset, remaining),
    decreases remaining,
{
    let q = b.take(k);
    if remaining > 0 && 1 + offset + 2 <= q.len() {
        assert(q[1 + offset + 1] == b[1 + offset + 1]);
        lemma_objects_end_prefix(b, k, offset + 2 + b[1 + offset + 1], (remaining - 1) as nat);
    }
}

/// A PDU length read from a prefix is either not yet known or the length
/// read from the whole.
#[verifier::spinoff_prover]
proof fn lemma_pdu_len_prefix(d: Direction, b: Seq<u8>, k: int)
    requires
        4 <= k <= b.len(),
    ensures
        ({
            let q = b.take(k);
            let lq = if d is Request { request_pdu_len(q) } else { response_pdu_len(q) };
            let lb = if d is Request { request_pdu_len(b) } else { response_pdu_len(b) };
            lq is Need || lq == lb
        }),
{
    let q = b.take(k);
    assert(q[1] == b[1]);
    assert(q[2] == b[2]);
    assert(q[3] == b[3]);
    if k >= 8 {
        assert(q[6] == b[6]);
    }
    if k >= 11 {
        assert(q[10] == b[10]);
    }
    if k >= 5 {
        assert(u16_at(q, 2) == u16_at(b, 2));
    }
}

/// A strict prefix of an ADU whose extent is the whole ADU needs more bytes:
/// a partial ADU is never taken for a complete one, nor rejected.
#[verifier::spinoff_prover]
pub proof fn lemma_extent_prefix_needs_more(d: Direction, b: Seq<u8>, k: int)
    requires
        0 <= k < b.len(),
        spec_derive_extent(d, b) matches Ok(Extent::Complete(n)) && n == b.len(),
    ensures
        spec_derive_extent(d, b.take(k)) == Ok::<Extent, Error>(Extent::NeedMore),
{
    let q = b.take(k);
    if k >= 4 {
        assert(q[1] == b[1]);
        assert(q[2] == b[2]);
        if b[1] >= 0x80 {
            assert(b.len() == 5);
            assert(q.len() < 5);
        } else if d is Response && b[1] == 0x2B && b[2] == 0x0E {
            assert(spec_derive_extent(d, b) == spec_mei14_response_extent(b));
            assert(b.len() >= 10);
            assert(objects_end(b, 7, b[7] as nat) is Some);
            if k >= 10 {
                assert(q[7] == b[7]);
                lemma_objects_end_prefix(b, k, 7, b[7] as nat);
                let end = objects_end(b, 7, b[7] as nat)->Some_0;
                lemma_objects_end_after(b, 7, b[7] as nat);
                assert(1 + end + 2 == b.len());
                assert(q.len() < 1 + end + 2);
            }
        } else {
            lemma_pdu_len_prefix(d, b, k);
            let lb = if d is Request { request_pdu_len(b) } else { response_pdu_len(b) };
            let lq = if d is Request { request_pdu_len(q) } else { response_pdu_len(q) };
            assert(lb is Len);
            let n = lb->Len_0;
            assert(1 + n + 2 == b.len());
            if lq is Len {
                assert(lq == lb);
                assert(q.len() < 1 + n + 2);
            }
        }
    }
}

} // verus!
