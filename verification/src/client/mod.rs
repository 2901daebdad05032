//! The Modbus client (initiator): the decisions it makes around one
//! exchange, and what it remembers between exchanges.
//!
//! A call goes: begin (refused if the client is unusable, failed without
//! cost if the request does not encode), send, then either finish at once
//! (a broadcast) or wait for a response whose header answers the request,
//! discarding any that do not, until the response timeout. Each step below
//! is one of those decisions; the caller performs the I/O between them.

pub mod framing;
pub mod typed;

use vstd::prelude::*;

use core::time::Duration;

use crate::client::framing::ClientFraming;
use crate::error::{is_unexpected_eof, kind_is_unexpected_eof, Error, Result};
use crate::frame::framing::{spec_is_self_locating, Framing};
use crate::frame::function::FunctionCode;
use crate::frame::pdu_model::{response_function, RequestPdu, ResponsePdu};
use crate::frame::pdu_spec::spec_encode_request;
use crate::frame::tcp::Tcp;
use crate::frame::value::{TransactionId, UnitId};
use crate::time::duration_as_nanos;
use crate::transport::FrameTransport;

verus! {

/// Seconds a response may take by default.
pub const DEFAULT_RESPONSE_TIMEOUT_SECS: u64 = 1;

/// How a client waits. There is no retry or reconnect policy: the client
/// never retries and never reconnects.
#[derive(Debug, Clone, Copy, PartialEq, Eq)]
pub struct ClientConfig {
    /// How long a response may take before the exchange is abandoned.
    pub response_timeout: Duration,
}

impl Default for ClientConfig {
    fn default() -> (r: Self)
        ensures
            duration_as_nanos(r.response_timeout) == DEFAULT_RESPONSE_TIMEOUT_SECS * 1_000_000_000,
    {
        ClientConfig { response_timeout: Duration::from_secs(DEFAULT_RESPONSE_TIMEOUT_SECS) }
    }
}

/// Why a client became unusable: what it observed at that moment, never a
/// claim about the peer.
#[derive(Debug, Clone, Copy, PartialEq, Eq)]
pub enum UnusableReason {
    /// The peer's end of stream was seen.
    PeerClosed,
    /// The platform reported an I/O failure in either direction.
    Io {
        /// The I/O error kind the platform reported.
        kind: std::io::ErrorKind,
    },
    /// The response timeout elapsed with no matching response.
    Silent,
    /// A frame did not decode on a framing that is not self-locating.
    Undecodable,
}

/// What a client knows about its own usability: its own history, not
/// whether the peer is alive.
#[derive(Debug, Clone, Copy, PartialEq, Eq)]
pub enum ClientState {
    /// No exchange has been attempted, or only broadcast writes have been.
    Untried,
    /// The last exchange was answered, including with an exception.
    Answered,
    /// The last exchange was not answered, and the client is still usable.
    Unanswered,
    /// Every further request will be refused.
    Unusable(UnusableReason),
}

/// The reason a failure leaves the client unusable with: an end of stream is
/// the peer closing, an I/O failure is itself, a timeout is silence, and
/// anything else is a frame that could not be decoded.
pub open spec fn spec_classify(error: Error) -> UnusableReason {
    match error {
        Error::ConnectionClosed => UnusableReason::PeerClosed,
        Error::Io { kind } => if is_unexpected_eof(kind) {
            UnusableReason::PeerClosed
        } else {
            UnusableReason::Io { kind }
        },
        Error::Timeout { .. } => UnusableReason::Silent,
        _ => UnusableReason::Undecodable,
    }
}

/// Classify an error that leaves the client unusable.
pub fn classify_unusable_reason(error: &Error) -> (r: UnusableReason)
    ensures
        r == spec_classify(*error),
{
    match error {
        Error::ConnectionClosed => UnusableReason::PeerClosed,
        Error::Io { kind } => {
            if kind_is_unexpected_eof(kind) {
                UnusableReason::PeerClosed
            } else {
                UnusableReason::Io { kind: *kind }
            }
        },
        Error::Timeout { .. } => UnusableReason::Silent,
        _ => UnusableReason::Undecodable,
    }
}

/// The identifier following `current`, wrapping to 1 rather than to 0.
pub open spec fn spec_next(current: TransactionId) -> TransactionId {
    if current.0 == u16::MAX {
        TransactionId(1)
    } else {
        TransactionId((current.0 + 1) as u16)
    }
}

/// The identifier following `current`, wrapping to 1 rather than to 0.
pub fn next(current: TransactionId) -> (r: TransactionId)
    ensures
        r == spec_next(current),
{
    if current.0 == u16::MAX {
        TransactionId(1)
    } else {
        TransactionId(current.0 + 1)
    }
}

/// The state a failed receive leaves: an I/O failure ends the stream whatever
/// the framing, and a frame failure costs the link only where the next
/// boundary was carried by the frame that failed; otherwise the link survives
/// and this exchange went unanswered.
pub open spec fn spec_after_receive_failure(error: Error, self_locating: bool) -> ClientState {
    if error.spec_ends_stream() || !self_locating {
        ClientState::Unusable(spec_classify(error))
    } else {
        ClientState::Unanswered
    }
}

/// What a response that answers the request yields: the response itself, or
/// an error naming both codes when it carries another function's body.
pub open spec fn spec_answer(expected: FunctionCode, response: ResponsePdu) -> Result<ResponsePdu> {
    if response_function(response@) != expected {
        Err(Error::UnexpectedFunction { expected, actual: response_function(response@) })
    } else {
        Ok(response)
    }
}

/// What a client remembers between exchanges.
struct Session {
    /// How long a response may take.
    config: ClientConfig,
    /// The identifier the next request will carry.
    next_transaction: TransactionId,
    /// What this client has observed about its own usability. Being
    /// desynchronized is one of its cases rather than a flag beside it, so
    /// the two cannot disagree.
    state: ClientState,
}

impl Session {
    /// Identifier 0 is never allocated, so a matched response is never
    /// matched against an unset field.
    #[verifier::type_invariant]
    spec fn transaction_allocated(self) -> bool {
        self.next_transaction.0 != 0
    }
}

/// A Modbus client. One type for every framing: what differs between them is
/// named by [`ClientFraming`] and nothing else.
///
/// Every request takes `&mut self`, so the borrow checker permits one
/// exchange at a time.
#[verifier::reject_recursive_types(S)]
#[verifier::reject_recursive_types(F)]
pub struct Client<S, F> {
    /// The established transport this client speaks over.
    transport: FrameTransport<S, F>,
    /// What the client remembers between exchanges.
    session: Session,
}

impl<S, F: ClientFraming> Client<S, F> {
    /// The identifier the next request will carry.
    pub closed spec fn transaction(self) -> TransactionId {
        self.session.next_transaction
    }

    /// What this client has observed about its own usability.
    pub closed spec fn spec_state(self) -> ClientState {
        self.session.state
    }

    /// How this client waits.
    pub closed spec fn settings(self) -> ClientConfig {
        self.session.config
    }

    /// The transport this client speaks over.
    pub closed spec fn link(self) -> FrameTransport<S, F> {
        self.transport
    }

    /// Build a client over an established transport, with the default
    /// configuration.
    pub fn new(transport: FrameTransport<S, F>) -> (c: Self)
        ensures
            c.link() == transport,
            duration_as_nanos(c.settings().response_timeout) == DEFAULT_RESPONSE_TIMEOUT_SECS * 1_000_000_000,
            c.transaction() == TransactionId(1),
            c.spec_state() == ClientState::Untried,
    {
        Self::with_config(transport, ClientConfig::default())
    }

    /// Build a client over an established transport. Identifiers start at 1.
    pub fn with_config(transport: FrameTransport<S, F>, config: ClientConfig) -> (c: Self)
        ensures
            c.link() == transport,
            c.settings() == config,
            c.transaction() == TransactionId(1),
            c.spec_state() == ClientState::Untried,
    {
        Client {
            transport,
            session: Session { config, next_transaction: TransactionId(1), state: ClientState::Untried },
        }
    }

    /// Surrender the transport. The only recovery from desynchronization is
    /// to discard the client; this is how the connection underneath can be
    /// inspected or replaced.
    pub fn into_inner(self) -> (t: FrameTransport<S, F>)
        ensures
            t == self.link(),
    {
        self.transport
    }

    /// Whether this client has given up on the byte stream: a projection of
    /// [`Client::state`], so the two cannot disagree.
    pub fn is_desynchronized(&self) -> (r: bool)
        ensures
            r == (self.spec_state() is Unusable),
    {
        match self.session.state {
            ClientState::Unusable(_) => true,
            _ => false,
        }
    }

    /// What this client knows about its own usability. Touches neither the
    /// transport nor the clock.
    pub fn state(&self) -> (s: ClientState)
        ensures
            s == self.spec_state(),
    {
        self.session.state
    }

    /// How this client waits.
    pub fn config(&self) -> (c: ClientConfig)
        ensures
            c == self.settings(),
    {
        self.session.config
    }

    /// The transport, to perform the I/O an exchange needs.
    pub fn transport_mut(&mut self) -> (t: &mut FrameTransport<S, F>)
        ensures
            *t == old(self).link(),
            final(self).link() == *final(t),
            final(self).spec_state() == old(self).spec_state(),
            final(self).transaction() == old(self).transaction(),
            final(self).settings() == old(self).settings(),
    {
        &mut self.transport
    }

    /// Begin a call: refused outright when the client is unusable, failed
    /// without spending an identifier or writing a byte when the request does
    /// not encode; otherwise the request is encoded into the transport's
    /// outgoing buffer behind the header returned, which carries the next
    /// identifier, never 0.
    pub fn begin_call(&mut self, unit: UnitId, request: &RequestPdu) -> (r: Result<F::Header>)
        ensures
            final(self).spec_state() == old(self).spec_state(),
            final(self).transaction() == old(self).transaction(),
            final(self).settings() == old(self).settings(),
            old(self).transaction().0 != 0,
            final(self).link().buffered() == old(self).link().buffered(),
            final(self).link().underlying() == old(self).link().underlying(),
            final(self).link().settings() == old(self).link().settings(),
            final(self).link().is_receiving() == old(self).link().is_receiving(),
            old(self).spec_state() is Unusable ==> r == Err::<F::Header, Error>(Error::Desynchronized)
                && final(self).link() == old(self).link(),
            !(old(self).spec_state() is Unusable) ==> match spec_encode_request(request@) {
                Err(e) => r == Err::<F::Header, Error>(e) && final(self).link().pending() == Seq::<u8>::empty(),
                Ok(b) => match F::spec_wrap(F::spec_request_header(unit, old(self).transaction()), b) {
                    Err(e) => r == Err::<F::Header, Error>(e) && final(self).link().pending() == Seq::<u8>::empty(),
                    Ok(adu) => r == Ok::<F::Header, Error>(F::spec_request_header(unit, old(self).transaction()))
                        && final(self).link().pending() == adu,
                },
            },
    {
        proof {
            use_type_invariant(&self.session);
        }
        if self.is_desynchronized() {
            return Err(Error::Desynchronized);
        }
        let header = F::request_header(unit, self.session.next_transaction);
        match self.transport.prepare_request(&header, request) {
            Ok(()) => Ok(header),
            Err(e) => Err(e),
        }
    }

    /// The request could not be written. It may be on the wire in part, and
    /// nothing a later request can do repairs that, so the client is unusable.
    pub fn send_failed(&mut self, error: Error) -> (e: Error)
        ensures
            e == error,
            final(self).spec_state() == ClientState::Unusable(spec_classify(error)),
            final(self).transaction() == old(self).transaction(),
            final(self).settings() == old(self).settings(),
            final(self).link() == old(self).link(),
    {
        proof {
            use_type_invariant(&self.session);
        }
        self.session.state = ClientState::Unusable(classify_unusable_reason(&error));
        error
    }

    /// The request was written: the identifier is spent. Says whether a
    /// response is to be awaited; a broadcast is answered by no server, and is
    /// no evidence either way, so the state stands as it was.
    pub fn sent(&mut self, unit: UnitId) -> (awaiting: bool)
        ensures
            awaiting == !F::spec_is_broadcast(unit),
            final(self).transaction() == spec_next(old(self).transaction()),
            final(self).spec_state() == old(self).spec_state(),
            final(self).settings() == old(self).settings(),
            final(self).link().pending() == Seq::<u8>::empty(),
            final(self).link().buffered() == old(self).link().buffered(),
            final(self).link().underlying() == old(self).link().underlying(),
    {
        proof {
            use_type_invariant(&self.session);
        }
        self.session.next_transaction = next(self.session.next_transaction);
        self.transport.sent();
        !F::is_broadcast(unit)
    }

    /// The response timeout elapsed with no matching response: what the peer
    /// sends next is unaccounted for, so the client is unusable.
    pub fn timed_out(&mut self) -> (e: Error)
        ensures
            e == (Error::Timeout { what: "response" }),
            final(self).spec_state() == ClientState::Unusable(UnusableReason::Silent),
            final(self).transaction() == old(self).transaction(),
            final(self).settings() == old(self).settings(),
            final(self).link() == old(self).link(),
    {
        proof {
            use_type_invariant(&self.session);
        }
        self.session.state = ClientState::Unusable(UnusableReason::Silent);
        Error::Timeout { what: "response" }
    }

    /// Receiving a response failed. The error is handed back unaltered.
    pub fn receive_failed(&mut self, error: Error) -> (e: Error)
        ensures
            e == error,
            final(self).spec_state() == spec_after_receive_failure(error, spec_is_self_locating(F::spec_boundary())),
            final(self).transaction() == old(self).transaction(),
            final(self).settings() == old(self).settings(),
            final(self).link() == old(self).link(),
    {
        proof {
            use_type_invariant(&self.session);
        }
        let ends = error.ends_stream();
        let locating = F::boundary().is_self_locating();
        self.session.state = if ends || !locating {
            ClientState::Unusable(classify_unusable_reason(&error))
        } else {
            ClientState::Unanswered
        };
        error
    }

    /// A response arrived. One whose header does not answer the request sent
    /// is another exchange's, or a late one: it is discarded (`None`) and the
    /// wait goes on against the same deadline, the state untouched. One that
    /// answers is the peer answering, whatever it said.
    pub fn received(&mut self, sent: &F::Header, header: &F::Header, expected: FunctionCode, response: ResponsePdu)
        -> (r: Option<Result<ResponsePdu>>)
        ensures
            !F::spec_is_response_to(*sent, *header) ==> r is None && *final(self) == *old(self),
            F::spec_is_response_to(*sent, *header) ==> r == Some(spec_answer(expected, response))
                && final(self).spec_state() == ClientState::Answered
                && final(self).transaction() == old(self).transaction()
                && final(self).settings() == old(self).settings()
                && final(self).link() == old(self).link(),
    {
        if !F::is_response_to(sent, header) {
            return None;
        }
        proof {
            use_type_invariant(&self.session);
        }
        self.session.state = ClientState::Answered;
        let actual = response.function();
        if actual != expected {
            return Some(Err(Error::UnexpectedFunction { expected, actual }));
        }
        Some(Ok(response))
    }
}

/// Identifiers never reach 0: the one after any identifier is in 1..=65535,
/// and the one after 65535 is 1. No identifier is followed by itself.
pub proof fn lemma_next_never_zero(t: TransactionId)
    ensures
        spec_next(t).0 != 0,
        t.0 == u16::MAX ==> spec_next(t) == TransactionId(1),
        t.0 < u16::MAX ==> spec_next(t).0 == t.0 + 1,
        spec_next(t) != t,
{
}

/// On TCP a reply to one request is never taken for the reply to the next:
/// the next request carries the next identifier, and a reply answers only the
/// header it echoes, unit and identifier both.
pub proof fn lemma_late_reply_never_matches(unit: UnitId, reply_unit: UnitId, t: TransactionId)
    ensures
        !Tcp::spec_is_response_to(
            Tcp::spec_request_header(unit, spec_next(t)),
            Tcp::spec_request_header(reply_unit, t),
        ),
{
}

/// What each failure leaves a client reporting: a closed connection, or an
/// end of file where a reply was due, is the peer closing; any other I/O
/// failure is that I/O failure; an elapsed wait is silence; anything else is
/// a frame that did not decode. After a failed receive the client stays
/// usable, with the exchange unanswered, only when the failure cost a single
/// frame of a framing that finds the next frame on the wire.
pub proof fn lemma_failure_reports(kind: std::io::ErrorKind, what: &'static str, e: Error, self_locating: bool)
    ensures
        spec_classify(Error::ConnectionClosed) == UnusableReason::PeerClosed,
        spec_classify(Error::Timeout { what }) == UnusableReason::Silent,
        is_unexpected_eof(kind) ==> spec_classify(Error::Io { kind }) == UnusableReason::PeerClosed,
        !is_unexpected_eof(kind) ==> spec_classify(Error::Io { kind }) == (UnusableReason::Io { kind }),
        !(e is Io || e is ConnectionClosed || e is Timeout) ==> spec_classify(e) == UnusableReason::Undecodable,
        (e is Io || e is ConnectionClosed || e is Timeout) ==> spec_after_receive_failure(e, self_locating)
            == ClientState::Unusable(spec_classify(e)),
        !(e is Io || e is ConnectionClosed || e is Timeout) ==> spec_after_receive_failure(e, self_locating) == (
        if self_locating {
            ClientState::Unanswered
        } else {
            ClientState::Unusable(UnusableReason::Undecodable)
        }),
{
}

} // verus!
