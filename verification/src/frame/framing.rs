//! The ADU framing abstraction: what a framing puts around a PDU, and how the
//! end of one of its ADUs is found on a byte stream.

use vstd::prelude::*;

use crate::error::{Error, Result};
use crate::frame::pdu_model::{RequestModel, RequestPdu, ResponseModel, ResponsePdu};
use crate::frame::pdu_spec::{spec_decode_request, spec_decode_response, spec_encode_request, spec_encode_response};
use crate::frame::rtu::{derive_extent, spec_derive_extent};
use crate::frame::tcp::{adu_len, spec_adu_len};

verus! {

/// Which way a PDU travels. A PDU does not say so itself: the same function
/// code lays out its request and its response differently.
#[derive(Debug, Clone, Copy, PartialEq, Eq, Structural)]
pub enum Direction {
    /// From a client to a server.
    Request,
    /// From a server to a client.
    Response,
}

/// How far the bytes in hand go towards one ADU.
#[derive(Debug, Clone, Copy, PartialEq, Eq, Structural)]
pub enum Extent {
    /// The ADU's length is not yet known, or more bytes than are in hand
    /// belong to it.
    NeedMore,
    /// The ADU is complete and this long; any later byte belongs to the next.
    Complete(usize),
}

/// A rule that gives the length of a whole ADU from its fixed-size prefix.
#[derive(Debug, Clone, Copy, PartialEq, Eq, Structural)]
pub enum LengthRule {
    /// The MBAP length field, which counts every byte after itself.
    MbapLength,
}

/// A rule that finds the extent of an ADU from the PDU it carries.
#[derive(Debug, Clone, Copy, PartialEq, Eq, Structural)]
pub enum ExtentRule {
    /// An RTU ADU read off a byte stream: address, PDU, CRC, with the PDU's
    /// length taken from its function code and count fields.
    RtuPdu,
}

/// What applying a length rule to a prefix yields.
pub open spec fn spec_apply_length(rule: LengthRule, prefix: Seq<u8>) -> Result<usize> {
    match rule {
        LengthRule::MbapLength => spec_adu_len(prefix),
    }
}

/// What applying an extent rule to the bytes in hand yields.
pub open spec fn spec_apply_extent(rule: ExtentRule, direction: Direction, bytes: Seq<u8>) -> Result<Extent> {
    match rule {
        ExtentRule::RtuPdu => spec_derive_extent(direction, bytes),
    }
}

impl LengthRule {
    /// The whole ADU's length, given its prefix; a length the framing does not
    /// permit is rejected before it can size anything.
    pub fn apply(&self, prefix: &[u8]) -> (r: Result<usize>)
        ensures
            r == spec_apply_length(*self, prefix@),
    {
        match self {
            LengthRule::MbapLength => adu_len(prefix),
        }
    }
}

impl ExtentRule {
    /// The extent of the ADU that `bytes` begin.
    pub fn apply(&self, direction: Direction, bytes: &[u8]) -> (r: Result<Extent>)
        ensures
            r == spec_apply_extent(*self, direction, bytes@),
    {
        match self {
            ExtentRule::RtuPdu => derive_extent(direction, bytes),
        }
    }
}

/// How the end of an ADU is determined.
///
/// A description, not a reader: it names the rule so a transport can apply it,
/// and performs no I/O itself.
#[derive(Debug, Clone, Copy)]
pub enum AduBoundary {
    /// `prefix` bytes are read, and `total` applied to them yields the length
    /// of the whole ADU, that prefix included.
    Prefixed {
        /// Bytes needed before the length can be computed.
        prefix: usize,
        /// Maps those bytes to the whole ADU's length.
        total: LengthRule,
    },
    /// The ADU's length is derived from the PDU it carries: at least `min`
    /// bytes are read, and `extent` says whether they complete an ADU.
    ContentLength {
        /// Bytes needed before the extent can be asked for.
        min: usize,
        /// Derives the extent from the bytes in hand and the direction.
        extent: ExtentRule,
    },
    /// The ADU runs from `start` to the first occurrence of `end` after it.
    Delimited {
        /// Byte that opens an ADU; anything before it is not part of one.
        start: u8,
        /// Byte pair that closes an ADU.
        end: [u8; 2],
    },
    /// The ADU ends when the line falls silent for long enough.
    Silence,
}

/// Whether a boundary rule finds the next boundary from the wire alone.
pub open spec fn spec_is_self_locating(b: AduBoundary) -> bool {
    b is Delimited || b is Silence
}

impl AduBoundary {
    /// Whether the next frame boundary is findable from the wire alone.
    ///
    /// Silence and delimiters are properties of the line, so one bad frame
    /// costs exactly one frame. A length carried by a frame, in a length field
    /// or in the PDU, is lost with that frame, and every boundary after it too.
    pub fn is_self_locating(&self) -> (r: bool)
        ensures
            r == spec_is_self_locating(*self),
    {
        match self {
            AduBoundary::Delimited { .. } | AduBoundary::Silence => true,
            AduBoundary::Prefixed { .. } | AduBoundary::ContentLength { .. } => false,
        }
    }
}

/// A decoded request ADU, taken by its model.
pub open spec fn framed_request<H>(r: Result<(H, RequestPdu)>) -> Result<(H, RequestModel)> {
    match r {
        Ok((h, p)) => Ok((h, p@)),
        Err(e) => Err(e),
    }
}

/// A decoded response ADU, taken by its model.
pub open spec fn framed_response<H>(r: Result<(H, ResponsePdu)>) -> Result<(H, ResponseModel)> {
    match r {
        Ok((h, p)) => Ok((h, p@)),
        Err(e) => Err(e),
    }
}

/// One of the ways a PDU is wrapped for transmission.
///
/// Decoding yields the header and the PDU separately, so a caller can route on
/// the header without re-encoding anything. Request and response have their
/// own methods because a PDU is not self-describing.
pub trait Framing: Sized {
    /// What identifies the peer in this framing.
    type Header;

    /// Largest ADU this framing permits.
    const MAX_ADU_LEN: usize;

    /// The ADU that carries the encoded PDU `pdu` behind `header`.
    spec fn spec_wrap(header: Self::Header, pdu: Seq<u8>) -> Result<Seq<u8>>;

    /// The header and the PDU bytes an ADU carries, or why it carries none.
    spec fn spec_split(adu: Seq<u8>) -> Result<(Self::Header, Seq<u8>)>;

    /// Decode an ADU carrying a request.
    fn decode_request(bytes: &[u8]) -> (r: Result<(Self::Header, RequestPdu)>)
        ensures
            framed_request(r) == match Self::spec_split(bytes@) {
                Err(e) => Err(e),
                Ok((h, p)) => match spec_decode_request(p) {
                    Err(e) => Err(e),
                    Ok(m) => Ok((h, m)),
                },
            },
    ;

    /// Encode a request into an ADU, appending to `out`. The framing's
    /// maximum ADU length is reserved before the first byte is written, and a
    /// failure leaves `out` as it was found.
    fn encode_request_into(header: &Self::Header, pdu: &RequestPdu, out: &mut Vec<u8>) -> (r: Result<()>)
        ensures
            match r {
                Ok(()) => (match spec_encode_request(pdu@) { Err(e) => Err(e), Ok(b) => Self::spec_wrap(*header, b) }) matches Ok(b) && final(out)@ == old(out)@ + b,
                Err(e) => (match spec_encode_request(pdu@) { Err(e) => Err(e), Ok(b) => Self::spec_wrap(*header, b) }) == Err::<Seq<u8>, Error>(e) && final(out)@ == old(out)@,
            },
    ;

    /// Encode a request into an ADU, allocating a buffer for it. The bytes are
    /// those [`Self::encode_request_into`] appends.
    fn encode_request(header: &Self::Header, pdu: &RequestPdu) -> (r: Result<Vec<u8>>)
        ensures
            match r {
                Ok(v) => (match spec_encode_request(pdu@) { Err(e) => Err(e), Ok(b) => Self::spec_wrap(*header, b) }) == Ok::<Seq<u8>, Error>(v@),
                Err(e) => (match spec_encode_request(pdu@) { Err(e) => Err(e), Ok(b) => Self::spec_wrap(*header, b) }) == Err::<Seq<u8>, Error>(e),
            },
    {
        let mut out: Vec<u8> = Vec::new();
        match Self::encode_request_into(header, pdu, &mut out) {
            Ok(()) => {
                proof {
                    assert(out@ =~= (match spec_encode_request(pdu@) { Err(e) => Err(e), Ok(b) => Self::spec_wrap(*header, b) })->Ok_0);
                }
                Ok(out)
            },
            Err(e) => Err(e),
        }
    }

    /// Decode an ADU carrying a response.
    fn decode_response(bytes: &[u8]) -> (r: Result<(Self::Header, ResponsePdu)>)
        ensures
            framed_response(r) == match Self::spec_split(bytes@) {
                Err(e) => Err(e),
                Ok((h, p)) => match spec_decode_response(p) {
                    Err(e) => Err(e),
                    Ok(m) => Ok((h, m)),
                },
            },
    ;

    /// Encode a response into an ADU, appending to `out`, on the same terms
    /// as [`Self::encode_request_into`].
    fn encode_response_into(header: &Self::Header, pdu: &ResponsePdu, out: &mut Vec<u8>) -> (r: Result<()>)
        ensures
            match r {
                Ok(()) => (match spec_encode_response(pdu@) { Err(e) => Err(e), Ok(b) => Self::spec_wrap(*header, b) }) matches Ok(b) && final(out)@ == old(out)@ + b,
                Err(e) => (match spec_encode_response(pdu@) { Err(e) => Err(e), Ok(b) => Self::spec_wrap(*header, b) }) == Err::<Seq<u8>, Error>(e) && final(out)@ == old(out)@,
            },
    ;

    /// Encode a response into an ADU, allocating a buffer for it.
    fn encode_response(header: &Self::Header, pdu: &ResponsePdu) -> (r: Result<Vec<u8>>)
        ensures
            match r {
                Ok(v) => (match spec_encode_response(pdu@) { Err(e) => Err(e), Ok(b) => Self::spec_wrap(*header, b) }) == Ok::<Seq<u8>, Error>(v@),
                Err(e) => (match spec_encode_response(pdu@) { Err(e) => Err(e), Ok(b) => Self::spec_wrap(*header, b) }) == Err::<Seq<u8>, Error>(e),
            },
    {
        let mut out: Vec<u8> = Vec::new();
        match Self::encode_response_into(header, pdu, &mut out) {
            Ok(()) => {
                proof {
                    assert(out@ =~= (match spec_encode_response(pdu@) { Err(e) => Err(e), Ok(b) => Self::spec_wrap(*header, b) })->Ok_0);
                }
                Ok(out)
            },
            Err(e) => Err(e),
        }
    }

    /// The rule by which the end of one of this framing's ADUs is found.
    spec fn spec_boundary() -> AduBoundary;

    /// How the end of one of this framing's ADUs is determined.
    fn boundary() -> (b: AduBoundary)
        ensures
            b == Self::spec_boundary(),
    ;
}

/// The ADU a framing makes of a request.
pub open spec fn request_adu<F: Framing>(header: F::Header, pdu: RequestModel) -> Result<Seq<u8>> {
    match spec_encode_request(pdu) {
        Err(e) => Err(e),
        Ok(b) => F::spec_wrap(header, b),
    }
}

/// The ADU a framing makes of a response.
pub open spec fn response_adu<F: Framing>(header: F::Header, pdu: ResponseModel) -> Result<Seq<u8>> {
    match spec_encode_response(pdu) {
        Err(e) => Err(e),
        Ok(b) => F::spec_wrap(header, b),
    }
}

/// The header and request a framing reads from an ADU.
pub open spec fn request_from_adu<F: Framing>(adu: Seq<u8>) -> Result<(F::Header, RequestModel)> {
    match F::spec_split(adu) {
        Err(e) => Err(e),
        Ok((h, p)) => match spec_decode_request(p) {
            Err(e) => Err(e),
            Ok(m) => Ok((h, m)),
        },
    }
}

/// The header and response a framing reads from an ADU.
pub open spec fn response_from_adu<F: Framing>(adu: Seq<u8>) -> Result<(F::Header, ResponseModel)> {
    match F::spec_split(adu) {
        Err(e) => Err(e),
        Ok((h, p)) => match spec_decode_response(p) {
            Err(e) => Err(e),
            Ok(m) => Ok((h, m)),
        },
    }
}

} // verus!
