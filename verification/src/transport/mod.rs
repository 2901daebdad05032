//! Byte-level transports: the buffer an ADU is read into, the rule that finds
//! where one ADU ends, and the configurations around them.
//!
//! Role-agnostic: a client and a server use the same types, differing only in
//! which direction they send and which they receive.

pub mod config;
pub mod serial;

use vstd::prelude::*;
use vstd::slice::{slice_subrange, slice_to_vec};

use core::marker::PhantomData;

use crate::error::{is_unexpected_eof, unexpected_eof, Error, Result};
use crate::frame::framing::{
    spec_apply_extent, spec_apply_length, spec_is_self_locating, AduBoundary, Direction, Extent,
    Framing,
};
use crate::frame::pdu_model::{RequestPdu, ResponsePdu};
use crate::frame::pdu_spec::{spec_encode_request, spec_encode_response};
use crate::frame::wire::push_bytes;
use crate::transport::config::TransportConfig;

verus! {

/// Bytes read from the stream at a time; one read covers the largest ADU any
/// framing permits.
pub const READ_CHUNK: usize = 513;

/// What reading one ADU needs next.
#[derive(Debug, Clone, Copy, PartialEq, Eq, Structural)]
pub enum Step {
    /// The first this many buffered bytes are one whole ADU.
    Complete(usize),
    /// More bytes are needed. `mid_adu` says whether part of an ADU is already
    /// buffered, so that the stream ending now severs a frame rather than
    /// closing between two.
    NeedMore {
        /// Whether part of an ADU is already buffered.
        mid_adu: bool,
    },
    /// The buffered bytes are an ADU once the line falls silent; read on until
    /// it does.
    UntilSilence,
}

/// The first position at or after `from` holding `b`, or the length if none
/// does.
pub open spec fn first_of(buf: Seq<u8>, b: u8, from: int) -> int
    decreases buf.len() - from,
{
    if from >= buf.len() {
        buf.len() as int
    } else if buf[from] == b {
        from
    } else {
        first_of(buf, b, from + 1)
    }
}

/// The first position at or after `from` where `e0` then `e1` occur, or the
/// length if they never do.
pub open spec fn first_pair(buf: Seq<u8>, e0: u8, e1: u8, from: int) -> int
    decreases buf.len() - from,
{
    if from + 1 >= buf.len() {
        buf.len() as int
    } else if buf[from] == e0 && buf[from + 1] == e1 {
        from
    } else {
        first_pair(buf, e0, e1, from + 1)
    }
}

/// The bytes a delimited framing keeps: from the first start byte on, or none
/// if no start byte has arrived.
pub open spec fn delimited_kept(buf: Seq<u8>, start: u8) -> Seq<u8> {
    let s = first_of(buf, start, 0);
    if s < buf.len() {
        buf.skip(s)
    } else {
        Seq::<u8>::empty()
    }
}

/// The error for a buffer that holds a whole ADU's worth without one ending.
pub open spec fn too_large(len: int, max: int) -> Error {
    Error::AduTooLarge { len: len as usize, max: max as usize }
}

/// What a buffer needs next, and what of it is kept, under a boundary rule
/// whose largest ADU is `max` bytes.
///
/// A length-prefixed ADU is validated before its length sizes anything; a
/// delimited ADU drops whatever precedes its start byte; an ADU ended by
/// silence waits for a first byte before it waits for silence. Once a whole
/// ADU's worth is buffered without an ADU ending, the buffer is too large.
pub open spec fn spec_step(b: AduBoundary, max: int, direction: Direction, buf: Seq<u8>) -> (Seq<u8>, Result<Step>) {
    match b {
        AduBoundary::Prefixed { prefix, total } => (
            buf,
            if prefix > max {
                Err(too_large(prefix as int, max))
            } else if buf.len() < prefix {
                Ok(Step::NeedMore { mid_adu: buf.len() > 0 })
            } else {
                match spec_apply_length(total, buf.subrange(0, prefix as int)) {
                    Err(e) => Err(e),
                    Ok(len) => if len > max {
                        Err(too_large(len as int, max))
                    } else if buf.len() < len {
                        Ok(Step::NeedMore { mid_adu: buf.len() > 0 })
                    } else {
                        Ok(Step::Complete(len))
                    },
                }
            },
        ),
        AduBoundary::ContentLength { min, extent } => (
            buf,
            if min > max {
                Err(too_large(min as int, max))
            } else if buf.len() < min {
                Ok(Step::NeedMore { mid_adu: buf.len() > 0 })
            } else {
                match spec_apply_extent(extent, direction, buf) {
                    Err(e) => Err(e),
                    Ok(Extent::Complete(len)) => Ok(Step::Complete(len)),
                    Ok(Extent::NeedMore) => if buf.len() >= max {
                        Err(too_large(buf.len() as int, max))
                    } else {
                        Ok(Step::NeedMore { mid_adu: true })
                    },
                }
            },
        ),
        AduBoundary::Delimited { start, end } => {
            let kept = delimited_kept(buf, start);
            let at = first_pair(kept, end@[0], end@[1], 0);
            (
                kept,
                if at < kept.len() {
                    Ok(Step::Complete((at + 2) as usize))
                } else if kept.len() >= max {
                    Err(too_large(kept.len() as int, max))
                } else {
                    Ok(Step::NeedMore { mid_adu: kept.len() > 0 })
                },
            )
        },
        AduBoundary::Silence => (
            buf,
            if buf.len() == 0 {
                Ok(Step::NeedMore { mid_adu: false })
            } else if buf.len() >= max {
                Err(too_large(buf.len() as int, max))
            } else {
                Ok(Step::UntilSilence)
            },
        ),
    }
}

/// The error a stream ending yields: inside an ADU it severs a frame, between
/// two ADUs it is the end of the stream, reported as an unexpected end of
/// file.
pub fn end_of_stream(mid_adu: bool) -> (e: Error)
    ensures
        mid_adu ==> e == Error::ConnectionClosed,
        !mid_adu ==> (e matches Error::Io { kind } && is_unexpected_eof(kind)),
{
    if mid_adu {
        Error::ConnectionClosed
    } else {
        Error::Io { kind: unexpected_eof() }
    }
}

/// The first position at or after `from` holding `b`, or the length.
fn position_of(buf: &[u8], b: u8, from: usize) -> (r: usize)
    requires
        from <= buf@.len(),
    ensures
        r == first_of(buf@, b, from as int),
{
    let mut i = from;
    while i < buf.len()
        invariant
            from <= i <= buf@.len(),
            first_of(buf@, b, from as int) == first_of(buf@, b, i as int),
        decreases buf@.len() - i,
    {
        if buf[i] == b {
            return i;
        }
        i = i + 1;
    }
    i
}

/// The first position at or after `from` where `e0` then `e1` occur, or the
/// length.
fn position_of_pair(buf: &[u8], e0: u8, e1: u8, from: usize) -> (r: usize)
    ensures
        r == first_pair(buf@, e0, e1, from as int),
        r < buf@.len() ==> r + 1 < buf@.len(),
{
    let mut i = from;
    if i >= buf.len() {
        return buf.len();
    }
    while i < buf.len() - 1
        invariant
            from <= i < buf@.len(),
            first_pair(buf@, e0, e1, from as int) == first_pair(buf@, e0, e1, i as int),
        decreases buf@.len() - i,
    {
        if buf[i] == e0 && buf[i + 1] == e1 {
            return i;
        }
        i = i + 1;
    }
    buf.len()
}

/// A byte stream carrying framed Modbus ADUs, with the bytes read but not yet
/// consumed and the one buffer every outgoing ADU is encoded into.
///
/// Generic over the stream, so anything duplex serves: a socket, a serial
/// port, or an in-memory pair.
#[verifier::reject_recursive_types(S)]
#[verifier::reject_recursive_types(F)]
pub struct FrameTransport<S, F> {
    /// The underlying byte stream.
    stream: S,
    /// Bytes read but not yet consumed.
    buffer: Vec<u8>,
    /// The ADU being sent; cleared between frames but never shrunk.
    outgoing: Vec<u8>,
    /// Boundary parameters the framing cannot supply on its own.
    config: TransportConfig,
    /// Set while a receive is in flight; a receive that never finished left
    /// the buffer in an unknown state.
    receiving: bool,
    /// Which framing this transport speaks.
    framing: PhantomData<F>,
}

impl<S, F: Framing> FrameTransport<S, F> {
    /// The bytes read but not yet consumed.
    pub closed spec fn buffered(&self) -> Seq<u8> {
        self.buffer@
    }

    /// The ADU prepared for sending.
    pub closed spec fn pending(&self) -> Seq<u8> {
        self.outgoing@
    }

    /// Whether a receive is in flight.
    pub closed spec fn is_receiving(&self) -> bool {
        self.receiving
    }

    /// The boundary parameters.
    pub closed spec fn settings(&self) -> TransportConfig {
        self.config
    }

    /// The underlying stream.
    pub closed spec fn underlying(&self) -> S {
        self.stream
    }

    /// Wrap a stream, with the default boundary parameters.
    pub fn new(stream: S) -> (t: Self)
        ensures
            t.underlying() == stream,
            t.buffered() == Seq::<u8>::empty(),
            t.pending() == Seq::<u8>::empty(),
            !t.is_receiving(),
    {
        Self::with_config(stream, TransportConfig::default())
    }

    /// Wrap a stream with explicit boundary parameters.
    pub fn with_config(stream: S, config: TransportConfig) -> (t: Self)
        ensures
            t.underlying() == stream,
            t.settings() == config,
            t.buffered() == Seq::<u8>::empty(),
            t.pending() == Seq::<u8>::empty(),
            !t.is_receiving(),
    {
        FrameTransport {
            stream,
            buffer: Vec::new(),
            outgoing: Vec::new(),
            config,
            receiving: false,
            framing: PhantomData,
        }
    }

    /// Recover the underlying stream.
    pub fn into_inner(self) -> (s: S)
        ensures
            s == self.underlying(),
    {
        self.stream
    }

    /// The boundary parameters.
    pub fn config(&self) -> (c: TransportConfig)
        ensures
            c == self.settings(),
    {
        self.config
    }

    /// The prepared ADU, and the stream to write it to.
    pub fn outgoing_and_stream(&mut self) -> (r: (&[u8], &mut S))
        ensures
            r.0@ == old(self).pending(),
            *r.1 == old(self).underlying(),
            final(self).underlying() == *final(r.1),
            final(self).buffered() == old(self).buffered(),
            final(self).pending() == old(self).pending(),
            final(self).is_receiving() == old(self).is_receiving(),
            final(self).settings() == old(self).settings(),
    {
        (self.outgoing.as_slice(), &mut self.stream)
    }

    /// The stream, to read from.
    pub fn stream_mut(&mut self) -> (r: &mut S)
        ensures
            *r == old(self).underlying(),
            final(self).underlying() == *final(r),
            final(self).buffered() == old(self).buffered(),
            final(self).pending() == old(self).pending(),
            final(self).is_receiving() == old(self).is_receiving(),
            final(self).settings() == old(self).settings(),
    {
        &mut self.stream
    }

    /// Encode a request into the outgoing buffer. On failure nothing is left
    /// to send.
    pub fn prepare_request(&mut self, header: &F::Header, pdu: &RequestPdu) -> (r: Result<()>)
        ensures
            match r {
                Ok(()) => (match spec_encode_request(pdu@) { Err(e) => Err(e), Ok(b) => F::spec_wrap(*header, b) })
                    == Ok::<Seq<u8>, Error>(final(self).pending()),
                Err(e) => (match spec_encode_request(pdu@) { Err(e) => Err(e), Ok(b) => F::spec_wrap(*header, b) })
                    == Err::<Seq<u8>, Error>(e) && final(self).pending() == Seq::<u8>::empty(),
            },
            final(self).buffered() == old(self).buffered(),
            final(self).is_receiving() == old(self).is_receiving(),
            final(self).settings() == old(self).settings(),
            final(self).underlying() == old(self).underlying(),
    {
        self.outgoing.clear();
        let r = F::encode_request_into(header, pdu, &mut self.outgoing);
        proof {
            if r is Ok {
                assert(self.outgoing@ =~= (match spec_encode_request(pdu@) { Err(e) => Err(e), Ok(b) => F::spec_wrap(*header, b) })->Ok_0);
            }
        }
        r
    }

    /// Encode a response into the outgoing buffer. On failure nothing is left
    /// to send.
    pub fn prepare_response(&mut self, header: &F::Header, pdu: &ResponsePdu) -> (r: Result<()>)
        ensures
            match r {
                Ok(()) => (match spec_encode_response(pdu@) { Err(e) => Err(e), Ok(b) => F::spec_wrap(*header, b) })
                    == Ok::<Seq<u8>, Error>(final(self).pending()),
                Err(e) => (match spec_encode_response(pdu@) { Err(e) => Err(e), Ok(b) => F::spec_wrap(*header, b) })
                    == Err::<Seq<u8>, Error>(e) && final(self).pending() == Seq::<u8>::empty(),
            },
            final(self).buffered() == old(self).buffered(),
            final(self).is_receiving() == old(self).is_receiving(),
            final(self).settings() == old(self).settings(),
            final(self).underlying() == old(self).underlying(),
    {
        self.outgoing.clear();
        let r = F::encode_response_into(header, pdu, &mut self.outgoing);
        proof {
            if r is Ok {
                assert(self.outgoing@ =~= (match spec_encode_response(pdu@) { Err(e) => Err(e), Ok(b) => F::spec_wrap(*header, b) })->Ok_0);
            }
        }
        r
    }

    /// The prepared ADU has been written: clear it, keeping the capacity.
    pub fn sent(&mut self)
        ensures
            final(self).pending() == Seq::<u8>::empty(),
            final(self).buffered() == old(self).buffered(),
            final(self).is_receiving() == old(self).is_receiving(),
            final(self).settings() == old(self).settings(),
            final(self).underlying() == old(self).underlying(),
    {
        self.outgoing.clear();
    }

    /// Start receiving one ADU. A receive that was abandoned part-way left a
    /// fragment of unknown extent in the buffer, so it is refused as the
    /// timeout it was.
    pub fn begin_receive(&mut self) -> (r: Result<()>)
        ensures
            old(self).is_receiving() ==> r == Err::<(), Error>(Error::Timeout { what: "receive" })
                && *final(self) == *old(self),
            !old(self).is_receiving() ==> r is Ok && final(self).is_receiving()
                && final(self).buffered() == old(self).buffered()
                && final(self).pending() == old(self).pending()
                && final(self).settings() == old(self).settings()
                && final(self).underlying() == old(self).underlying(),
    {
        if self.receiving {
            return Err(Error::Timeout { what: "receive" });
        }
        self.receiving = true;
        Ok(())
    }

    /// Finish receiving one ADU. After a failure on a framing that finds the
    /// next boundary on the wire, the buffered bytes belong to no frame anyone
    /// can name, so they are dropped and the next receive starts clean.
    pub fn end_receive(&mut self, failed: bool)
        ensures
            !final(self).is_receiving(),
            final(self).buffered() == (if failed && spec_is_self_locating(F::spec_boundary()) {
                Seq::<u8>::empty()
            } else {
                old(self).buffered()
            }),
            final(self).pending() == old(self).pending(),
            final(self).settings() == old(self).settings(),
            final(self).underlying() == old(self).underlying(),
    {
        self.receiving = false;
        if failed && F::boundary().is_self_locating() {
            self.buffer.clear();
        }
    }

    /// Append bytes just read from the stream.
    pub fn extend(&mut self, bytes: &[u8])
        ensures
            final(self).buffered() == old(self).buffered() + bytes@,
            final(self).pending() == old(self).pending(),
            final(self).is_receiving() == old(self).is_receiving(),
            final(self).settings() == old(self).settings(),
            final(self).underlying() == old(self).underlying(),
    {
        push_bytes(&mut self.buffer, bytes);
    }

    /// How many bytes are buffered.
    pub fn buffered_len(&self) -> (n: usize)
        ensures
            n == self.buffered().len(),
    {
        self.buffer.len()
    }

    /// Remove and return the first `len` buffered bytes, keeping the rest for
    /// the next ADU.
    pub fn take(&mut self, len: usize) -> (adu: Vec<u8>)
        requires
            len <= old(self).buffered().len(),
        ensures
            adu@ == old(self).buffered().subrange(0, len as int),
            final(self).buffered() == old(self).buffered().skip(len as int),
            final(self).pending() == old(self).pending(),
            final(self).is_receiving() == old(self).is_receiving(),
            final(self).settings() == old(self).settings(),
            final(self).underlying() == old(self).underlying(),
    {
        let adu = slice_to_vec(slice_subrange(self.buffer.as_slice(), 0, len));
        let rest = slice_to_vec(slice_subrange(self.buffer.as_slice(), len, self.buffer.len()));
        self.buffer = rest;
        adu
    }

    /// Remove and return every buffered byte: what an ADU ended by silence
    /// holds once the line falls quiet.
    pub fn take_all(&mut self) -> (adu: Vec<u8>)
        ensures
            adu@ == old(self).buffered(),
            final(self).buffered() == Seq::<u8>::empty(),
            final(self).pending() == old(self).pending(),
            final(self).is_receiving() == old(self).is_receiving(),
            final(self).settings() == old(self).settings(),
            final(self).underlying() == old(self).underlying(),
    {
        let mut adu = Vec::new();
        core::mem::swap(&mut adu, &mut self.buffer);
        adu
    }

    /// Refuse to buffer a whole ADU's worth for one ADU without it ending.
    pub fn check_buffer_bound(&self) -> (r: Result<()>)
        ensures
            r == (if self.buffered().len() >= F::MAX_ADU_LEN {
                Err::<(), Error>(too_large(self.buffered().len() as int, F::MAX_ADU_LEN as int))
            } else {
                Ok(())
            }),
    {
        if self.buffer.len() >= F::MAX_ADU_LEN {
            return Err(Error::AduTooLarge { len: self.buffer.len(), max: F::MAX_ADU_LEN });
        }
        Ok(())
    }

    /// Apply this framing's boundary rule to the buffered bytes: say whether
    /// they begin a whole ADU, and if not what is needed next. A delimited
    /// framing drops whatever precedes its start byte.
    pub fn next_step(&mut self, direction: Direction) -> (r: Result<Step>)
        ensures
            (final(self).buffered(), r) == spec_step(F::spec_boundary(), F::MAX_ADU_LEN as int, direction, old(self).buffered()),
            final(self).pending() == old(self).pending(),
            final(self).is_receiving() == old(self).is_receiving(),
            final(self).settings() == old(self).settings(),
            final(self).underlying() == old(self).underlying(),
    {
        let max = F::MAX_ADU_LEN;
        match F::boundary() {
            AduBoundary::Prefixed { prefix, total } => {
                if prefix > max {
                    return Err(Error::AduTooLarge { len: prefix, max });
                }
                if self.buffer.len() < prefix {
                    return Ok(Step::NeedMore { mid_adu: self.buffer.len() > 0 });
                }
                let len = match total.apply(slice_subrange(self.buffer.as_slice(), 0, prefix)) {
                    Ok(len) => len,
                    Err(e) => return Err(e),
                };
                if len > max {
                    return Err(Error::AduTooLarge { len, max });
                }
                if self.buffer.len() < len {
                    return Ok(Step::NeedMore { mid_adu: self.buffer.len() > 0 });
                }
                Ok(Step::Complete(len))
            },
            AduBoundary::ContentLength { min, extent } => {
                if min > max {
                    return Err(Error::AduTooLarge { len: min, max });
                }
                if self.buffer.len() < min {
                    return Ok(Step::NeedMore { mid_adu: self.buffer.len() > 0 });
                }
                match extent.apply(direction, self.buffer.as_slice()) {
                    Err(e) => Err(e),
                    Ok(Extent::Complete(len)) => Ok(Step::Complete(len)),
                    Ok(Extent::NeedMore) => {
                        if self.buffer.len() >= max {
                            return Err(Error::AduTooLarge { len: self.buffer.len(), max });
                        }
                        Ok(Step::NeedMore { mid_adu: true })
                    },
                }
            },
            AduBoundary::Delimited { start, end } => {
                let s = position_of(self.buffer.as_slice(), start, 0);
                if s < self.buffer.len() {
                    if s > 0 {
                        let kept = slice_to_vec(slice_subrange(self.buffer.as_slice(), s, self.buffer.len()));
                        self.buffer = kept;
                    }
                } else {
                    self.buffer.clear();
                }
                proof {
                    assert(self.buffer@ =~= delimited_kept(old(self).buffer@, start));
                }
                let at = position_of_pair(self.buffer.as_slice(), end[0], end[1], 0);
                if at < self.buffer.len() {
                    return Ok(Step::Complete(at + 2));
                }
                if self.buffer.len() >= max {
                    return Err(Error::AduTooLarge { len: self.buffer.len(), max });
                }
                Ok(Step::NeedMore { mid_adu: self.buffer.len() > 0 })
            },
            AduBoundary::Silence => {
                if self.buffer.len() == 0 {
                    return Ok(Step::NeedMore { mid_adu: false });
                }
                if self.buffer.len() >= max {
                    return Err(Error::AduTooLarge { len: self.buffer.len(), max });
                }
                Ok(Step::UntilSilence)
            },
        }
    }
}

/// The byte search finds a position at or after where it started.
proof fn lemma_first_of_after(buf: Seq<u8>, b: u8, from: int)
    requires
        0 <= from,
    ensures
        from <= first_of(buf, b, from) || first_of(buf, b, from) == buf.len(),
    decreases buf.len() - from,
{
    if from < buf.len() && buf[from] != b {
        lemma_first_of_after(buf, b, from + 1);
    }
}

/// The pair search finds a pair that lies within the sequence.
proof fn lemma_first_pair_within(buf: Seq<u8>, e0: u8, e1: u8, from: int)
    requires
        0 <= from,
    ensures
        first_pair(buf, e0, e1, from) < buf.len() ==> first_pair(buf, e0, e1, from) + 2 <= buf.len(),
        first_pair(buf, e0, e1, from) >= from || first_pair(buf, e0, e1, from) == buf.len(),
    decreases buf.len() - from,
{
    if from + 1 < buf.len() && !(buf[from] == e0 && buf[from + 1] == e1) {
        lemma_first_pair_within(buf, e0, e1, from + 1);
    }
}

/// Reading one ADU never asks for more bytes while a whole ADU's worth is
/// buffered, so the buffer never holds more than one ADU and one read; and an
/// ADU reported complete is wholly in the buffer.
pub proof fn lemma_step_bounds(b: AduBoundary, max: int, direction: Direction, buf: Seq<u8>)
    requires
        0 < max,
        buf.len() <= usize::MAX,
    ensures
        ({
            let (kept, r) = spec_step(b, max, direction, buf);
            &&& (r matches Ok(Step::NeedMore { .. }) ==> kept.len() < max)
            &&& (r matches Ok(Step::UntilSilence) ==> 0 < kept.len() < max)
            &&& (r matches Ok(Step::Complete(n)) ==> 0 < n <= kept.len())
        }),
{
    match b {
        AduBoundary::Delimited { start, end } => {
            let kept = delimited_kept(buf, start);
            lemma_first_of_after(buf, start, 0);
            lemma_first_pair_within(kept, end@[0], end@[1], 0);
        },
        AduBoundary::ContentLength { min, extent } => {
            crate::frame::rtu::lemma_derive_extent_within(direction, buf);
        },
        _ => {},
    }
}

} // verus!
