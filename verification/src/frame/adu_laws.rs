//! The round trips hold through every framing: an ADU decodes back to the
//! header and the PDU it was encoded from, and whatever an ADU decoder accepts
//! re-encodes to the identical ADU.

use vstd::prelude::*;

use crate::error::Error;
use crate::frame::ascii::{lemma_ascii_split_rewraps, lemma_ascii_wrap_splits, uppercase_hex, Ascii};
use crate::frame::framing::{request_adu, request_from_adu, response_adu, response_from_adu};
use crate::frame::pdu_model::{RequestModel, ResponseModel};
use crate::frame::pdu_spec::{spec_decode_request, spec_decode_response, spec_encode_request, spec_encode_response};
use crate::frame::reencode::{lemma_request_reencodes, lemma_response_reencodes};
use crate::frame::roundtrip::{canonical_request, canonical_response, lemma_request_redecodes, lemma_response_redecodes};
use crate::frame::rtu::{lemma_rtu_split_rewraps, lemma_rtu_wrap_splits, Rtu, RtuOverTcp};
use crate::frame::tcp::{lemma_tcp_split_rewraps, lemma_tcp_wrap_splits, MbapHeader, Tcp};
use crate::frame::value::UnitId;

verus! {

// ---------------------------------------------------------------------------
// Decode, then encode.

/// Whatever the TCP decoders accept re-encodes, behind the header it carried,
/// to the identical ADU.
#[verifier::spinoff_prover]
pub proof fn lemma_tcp_adu_reencodes(b: Seq<u8>)
    ensures
        request_from_adu::<Tcp>(b) matches Ok((h, m)) ==> request_adu::<Tcp>(h, m) == Ok::<Seq<u8>, Error>(b),
        response_from_adu::<Tcp>(b) matches Ok((h, m)) ==> response_adu::<Tcp>(h, m) == Ok::<Seq<u8>, Error>(b),
{
    if request_from_adu::<Tcp>(b) is Ok || response_from_adu::<Tcp>(b) is Ok {
        lemma_tcp_split_rewraps(b);
        let p = crate::frame::tcp::spec_tcp_split(b)->Ok_0.1;
        if spec_decode_request(p) is Ok {
            lemma_request_reencodes(p);
        }
        if spec_decode_response(p) is Ok {
            lemma_response_reencodes(p);
        }
    }
}

/// Whatever the RTU decoders accept re-encodes, for the address it carried,
/// to the identical ADU, CRC included.
#[verifier::spinoff_prover]
pub proof fn lemma_rtu_adu_reencodes(b: Seq<u8>)
    ensures
        request_from_adu::<Rtu>(b) matches Ok((h, m)) ==> request_adu::<Rtu>(h, m) == Ok::<Seq<u8>, Error>(b),
        response_from_adu::<Rtu>(b) matches Ok((h, m)) ==> response_adu::<Rtu>(h, m) == Ok::<Seq<u8>, Error>(b),
        request_from_adu::<RtuOverTcp>(b) matches Ok((h, m)) ==> request_adu::<RtuOverTcp>(h, m) == Ok::<Seq<u8>, Error>(b),
        response_from_adu::<RtuOverTcp>(b) matches Ok((h, m)) ==> response_adu::<RtuOverTcp>(h, m) == Ok::<Seq<u8>, Error>(b),
{
    if request_from_adu::<Rtu>(b) is Ok || response_from_adu::<Rtu>(b) is Ok {
        lemma_rtu_split_rewraps(b);
        let p = crate::frame::rtu::spec_rtu_split(b)->Ok_0.1;
        if spec_decode_request(p) is Ok {
            lemma_request_reencodes(p);
        }
        if spec_decode_response(p) is Ok {
            lemma_response_reencodes(p);
        }
    }
}

/// Whatever the ASCII decoders accept, written in uppercase, re-encodes for
/// the address it carried to the identical ADU.
#[verifier::spinoff_prover]
pub proof fn lemma_ascii_adu_reencodes(b: Seq<u8>)
    requires
        uppercase_hex(b),
    ensures
        request_from_adu::<Ascii>(b) matches Ok((h, m)) ==> request_adu::<Ascii>(h, m) == Ok::<Seq<u8>, Error>(b),
        response_from_adu::<Ascii>(b) matches Ok((h, m)) ==> response_adu::<Ascii>(h, m) == Ok::<Seq<u8>, Error>(b),
{
    if request_from_adu::<Ascii>(b) is Ok || response_from_adu::<Ascii>(b) is Ok {
        lemma_ascii_split_rewraps(b);
        let p = crate::frame::ascii::spec_ascii_split(b)->Ok_0.1;
        if spec_decode_request(p) is Ok {
            lemma_request_reencodes(p);
        }
        if spec_decode_response(p) is Ok {
            lemma_response_reencodes(p);
        }
    }
}

// ---------------------------------------------------------------------------
// Encode, then decode.

/// An encoded PDU is 1 to 253 bytes long.
#[verifier::spinoff_prover]
proof fn lemma_encoded_len(req: RequestModel, resp: ResponseModel)
    ensures
        spec_encode_request(req) is Ok && canonical_request(req) ==> 1 <= spec_encode_request(req)->Ok_0.len()
            <= crate::frame::pdu_spec::MAX_PDU_LEN,
        spec_encode_response(resp) is Ok && canonical_response(resp) ==> 1 <= spec_encode_response(resp)->Ok_0.len()
            <= crate::frame::pdu_spec::MAX_PDU_LEN,
{
    if spec_encode_request(req) is Ok && canonical_request(req) {
        lemma_request_redecodes(req);
    }
    if spec_encode_response(resp) is Ok && canonical_response(resp) {
        lemma_response_redecodes(resp);
    }
}

/// A TCP ADU encoded from a header and a PDU decodes back to both.
#[verifier::spinoff_prover]
pub proof fn lemma_tcp_adu_roundtrip(h: MbapHeader, req: RequestModel, resp: ResponseModel)
    ensures
        request_adu::<Tcp>(h, req) is Ok && canonical_request(req) ==> request_from_adu::<Tcp>(request_adu::<Tcp>(h, req)->Ok_0)
            == Ok::<(MbapHeader, RequestModel), Error>((h, req)),
        response_adu::<Tcp>(h, resp) is Ok && canonical_response(resp) ==> response_from_adu::<Tcp>(response_adu::<Tcp>(h, resp)->Ok_0)
            == Ok::<(MbapHeader, ResponseModel), Error>((h, resp)),
{
    lemma_encoded_len(req, resp);
    if request_adu::<Tcp>(h, req) is Ok && canonical_request(req) {
        lemma_request_redecodes(req);
        lemma_tcp_wrap_splits(h, spec_encode_request(req)->Ok_0);
    }
    if response_adu::<Tcp>(h, resp) is Ok && canonical_response(resp) {
        lemma_response_redecodes(resp);
        lemma_tcp_wrap_splits(h, spec_encode_response(resp)->Ok_0);
    }
}

/// An RTU ADU encoded for an address and a PDU decodes back to both.
#[verifier::spinoff_prover]
pub proof fn lemma_rtu_adu_roundtrip(a: UnitId, req: RequestModel, resp: ResponseModel)
    ensures
        request_adu::<Rtu>(a, req) is Ok && canonical_request(req) ==> request_from_adu::<Rtu>(request_adu::<Rtu>(a, req)->Ok_0)
            == Ok::<(UnitId, RequestModel), Error>((a, req)),
        response_adu::<Rtu>(a, resp) is Ok && canonical_response(resp) ==> response_from_adu::<Rtu>(response_adu::<Rtu>(a, resp)->Ok_0)
            == Ok::<(UnitId, ResponseModel), Error>((a, resp)),
        request_adu::<RtuOverTcp>(a, req) == request_adu::<Rtu>(a, req),
        response_adu::<RtuOverTcp>(a, resp) == response_adu::<Rtu>(a, resp),
        forall|b: Seq<u8>| request_from_adu::<RtuOverTcp>(b) == request_from_adu::<Rtu>(b),
        forall|b: Seq<u8>| response_from_adu::<RtuOverTcp>(b) == response_from_adu::<Rtu>(b),
{
    lemma_encoded_len(req, resp);
    if request_adu::<Rtu>(a, req) is Ok && canonical_request(req) {
        lemma_request_redecodes(req);
        lemma_rtu_wrap_splits(a, spec_encode_request(req)->Ok_0);
    }
    if response_adu::<Rtu>(a, resp) is Ok && canonical_response(resp) {
        lemma_response_redecodes(resp);
        lemma_rtu_wrap_splits(a, spec_encode_response(resp)->Ok_0);
    }
}

/// An ASCII ADU encoded for an address and a PDU decodes back to both.
#[verifier::spinoff_prover]
pub proof fn lemma_ascii_adu_roundtrip(a: UnitId, req: RequestModel, resp: ResponseModel)
    ensures
        request_adu::<Ascii>(a, req) is Ok && canonical_request(req) ==> request_from_adu::<Ascii>(request_adu::<Ascii>(a, req)->Ok_0)
            == Ok::<(UnitId, RequestModel), Error>((a, req)),
        response_adu::<Ascii>(a, resp) is Ok && canonical_response(resp) ==> response_from_adu::<Ascii>(response_adu::<Ascii>(a, resp)->Ok_0)
            == Ok::<(UnitId, ResponseModel), Error>((a, resp)),
{
    lemma_encoded_len(req, resp);
    if request_adu::<Ascii>(a, req) is Ok && canonical_request(req) {
        lemma_request_redecodes(req);
        lemma_ascii_wrap_splits(a, spec_encode_request(req)->Ok_0);
    }
    if response_adu::<Ascii>(a, resp) is Ok && canonical_response(resp) {
        lemma_response_redecodes(resp);
        lemma_ascii_wrap_splits(a, spec_encode_response(resp)->Ok_0);
    }
}

/// ASCII and RTU carry the same address and the same PDU, only framed
/// differently: a request or response encodes under one exactly when it
/// encodes under the other, and the two encodings decode to the same thing.
#[verifier::spinoff_prover]
pub proof fn lemma_ascii_and_rtu_agree(a: UnitId, req: RequestModel, resp: ResponseModel)
    ensures
        (request_adu::<Ascii>(a, req) is Ok) == (request_adu::<Rtu>(a, req) is Ok),
        (response_adu::<Ascii>(a, resp) is Ok) == (response_adu::<Rtu>(a, resp) is Ok),
        request_adu::<Rtu>(a, req) is Ok && canonical_request(req) ==> request_from_adu::<Ascii>(
            request_adu::<Ascii>(a, req)->Ok_0,
        ) == request_from_adu::<Rtu>(request_adu::<Rtu>(a, req)->Ok_0),
        response_adu::<Rtu>(a, resp) is Ok && canonical_response(resp) ==> response_from_adu::<Ascii>(
            response_adu::<Ascii>(a, resp)->Ok_0,
        ) == response_from_adu::<Rtu>(response_adu::<Rtu>(a, resp)->Ok_0),
{
    lemma_ascii_adu_roundtrip(a, req, resp);
    lemma_rtu_adu_roundtrip(a, req, resp);
}

} // verus!
