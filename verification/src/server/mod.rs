//! The Modbus server (responder): the decisions it makes for each request a
//! connection delivers, and for each way a connection can fail.
//!
//! A connection is served by reading a request, deciding whether this server
//! handles it, handing it to the service, and answering unless it was a
//! broadcast. The caller performs the I/O and runs the service; the
//! decisions are here.

pub mod framing;

use vstd::prelude::*;
use vstd::std_specs::convert::FromSpecImpl;

use crate::error::{is_unexpected_eof, kind_is_unexpected_eof, Error};
use crate::frame::exception::{ExceptionCode, ExceptionResponse};
use crate::frame::framing::{spec_is_self_locating, Framing};
use crate::frame::function::FunctionCode;
use crate::frame::pdu_model::ResponsePdu;
use crate::frame::rtu::Rtu;
use crate::frame::tcp::{MbapHeader, Tcp};
use crate::frame::value::UnitId;
use crate::server::framing::ServerFraming;

verus! {

/// How a server answers.
#[derive(Debug, Clone, Copy, PartialEq, Eq, Structural)]
pub struct ServerConfig {
    /// The only unit identifier to answer, or `None` to leave the decision to
    /// the service.
    pub unit: Option<UnitId>,
}

impl Default for ServerConfig {
    fn default() -> (r: Self)
        ensures
            r.unit is None,
    {
        ServerConfig { unit: None }
    }
}

/// A connection's identifier, unique within one server's lifetime.
#[derive(Debug, Clone, Copy, PartialEq, Eq, PartialOrd, Ord, Hash, Structural)]
pub struct ConnectionId(pub u64);

impl From<u64> for ConnectionId {
    fn from(value: u64) -> (r: Self)
        ensures
            r.0 == value,
    {
        ConnectionId(value)
    }
}

impl FromSpecImpl<u64> for ConnectionId {
    open spec fn obeys_from_spec() -> bool {
        true
    }

    open spec fn from_spec(v: u64) -> ConnectionId {
        ConnectionId(v)
    }
}

impl From<ConnectionId> for u64 {
    fn from(value: ConnectionId) -> (r: Self)
        ensures
            r == value.0,
    {
        value.0
    }
}

impl FromSpecImpl<ConnectionId> for u64 {
    open spec fn obeys_from_spec() -> bool {
        true
    }

    open spec fn from_spec(v: ConnectionId) -> u64 {
        v.0
    }
}

/// Why a connection ended.
#[derive(Debug, Clone, PartialEq, Eq)]
pub enum Disconnect {
    /// The peer closed the connection between two ADUs.
    Closed,
    /// The service declined the connection.
    Rejected,
    /// A failure ended it: I/O, or a request that could not be decoded.
    Failed(Error),
    /// The server is shutting down.
    ShuttingDown,
}

/// What a connection does after a failure.
#[derive(Debug, Clone, PartialEq, Eq)]
pub enum FailureAction {
    /// The peer closed between two ADUs: the connection ends as closed, an
    /// ordinary end with nothing to report.
    Close,
    /// Report the error to the service, then end the connection with it.
    ReportAndEnd(Error),
    /// Report the error to the service, then read the next request.
    ReportAndContinue(Error),
}

/// What a failed receive leaves the connection to do. A close between two
/// ADUs is an ordinary end. An I/O failure ends the connection whatever the
/// framing; a frame failure ends it only where the next boundary was carried
/// by the frame that failed, since on a self-locating framing one bad frame
/// costs one frame.
pub open spec fn spec_receive_failure(error: Error, self_locating: bool) -> FailureAction {
    if error matches Error::Io { kind } && is_unexpected_eof(kind) {
        FailureAction::Close
    } else if error.spec_ends_stream() || !self_locating {
        FailureAction::ReportAndEnd(error)
    } else {
        FailureAction::ReportAndContinue(error)
    }
}

/// What a failed receive leaves the connection to do.
pub fn receive_failure<F: ServerFraming>(error: Error) -> (r: FailureAction)
    ensures
        r == spec_receive_failure(error, spec_is_self_locating(F::spec_boundary())),
{
    if let Error::Io { kind } = &error {
        if kind_is_unexpected_eof(kind) {
            return FailureAction::Close;
        }
    }
    let ends = error.ends_stream();
    if ends || !F::boundary().is_self_locating() {
        FailureAction::ReportAndEnd(error)
    } else {
        FailureAction::ReportAndContinue(error)
    }
}

/// What a failed answer leaves the connection to do: a failure of the stream
/// ends it; a response that never reached the wire leaves the stream aligned,
/// so the next request can still be answered.
pub fn send_failure(error: Error) -> (r: FailureAction)
    ensures
        r == (if error.spec_ends_stream() {
            FailureAction::ReportAndEnd(error)
        } else {
            FailureAction::ReportAndContinue(error)
        }),
{
    if error.ends_stream() {
        FailureAction::ReportAndEnd(error)
    } else {
        FailureAction::ReportAndContinue(error)
    }
}

/// What becomes of a request that arrived whole.
#[derive(Debug, Clone, Copy, PartialEq, Eq, Structural)]
pub enum Dispatch {
    /// Another device's request: answering it would corrupt that exchange.
    Ignore,
    /// Hand it to the service and send back what the service answers.
    Answer,
    /// A broadcast: hand it to the service, and answer nothing.
    Silent,
}

/// What becomes of a request addressed to `unit`. A broadcast is handed to
/// the service whatever the configuration and never answered; it is tested
/// before the unit filter for exactly that reason. Otherwise a configured unit
/// admits only itself.
pub open spec fn spec_dispatch(config: ServerConfig, unit: UnitId, broadcast: bool) -> Dispatch {
    if broadcast {
        Dispatch::Silent
    } else if config.unit matches Some(configured) && configured != unit {
        Dispatch::Ignore
    } else {
        Dispatch::Answer
    }
}

/// The unit a request addresses, and what becomes of the request.
pub fn dispatch<F: ServerFraming>(config: &ServerConfig, header: &F::Header) -> (r: (UnitId, Dispatch))
    ensures
        r.0 == F::spec_unit(*header),
        r.1 == spec_dispatch(*config, F::spec_unit(*header), F::spec_is_broadcast(F::spec_unit(*header))),
{
    let unit = F::unit(header);
    if F::is_broadcast(unit) {
        return (unit, Dispatch::Silent);
    }
    match config.unit {
        Some(configured) => if configured != unit {
            (unit, Dispatch::Ignore)
        } else {
            (unit, Dispatch::Answer)
        },
        None => (unit, Dispatch::Answer),
    }
}

/// The response to send for what the service made of a request: its answer,
/// sent unaltered, or its refusal as an exception response to the function
/// requested.
pub fn response_for(function: FunctionCode, outcome: core::result::Result<ResponsePdu, ExceptionCode>) -> (r: ResponsePdu)
    ensures
        match outcome {
            Ok(p) => r == p,
            Err(exception) => r == ResponsePdu::Exception(ExceptionResponse { function, exception }),
        },
{
    match outcome {
        Ok(p) => p,
        Err(exception) => ResponsePdu::Exception(ExceptionResponse { function, exception }),
    }
}

/// No broadcast is ever answered, whatever the configuration; and a
/// configured unit filter never keeps a broadcast from the service.
pub proof fn lemma_broadcast_never_answered(config: ServerConfig, unit: UnitId)
    ensures
        spec_dispatch(config, unit, true) == Dispatch::Silent,
{
}

/// With a unit configured, exactly the requests to other units are ignored;
/// with none configured, nothing is.
pub proof fn lemma_unit_filter(config: ServerConfig, unit: UnitId, broadcast: bool)
    ensures
        (spec_dispatch(config, unit, broadcast) == Dispatch::Ignore)
            == (!broadcast && config.unit is Some && config.unit->0 != unit),
{
}

/// Over Modbus TCP a server that filters no unit answers every request,
/// whichever unit it names; over a serial line it answers every unit but 0,
/// whose requests it serves without answering.
pub proof fn lemma_unfiltered_dispatch(h: MbapHeader, u: UnitId)
    ensures
        spec_dispatch(
            ServerConfig { unit: None },
            <Tcp as ServerFraming>::spec_unit(h),
            <Tcp as ServerFraming>::spec_is_broadcast(<Tcp as ServerFraming>::spec_unit(h)),
        ) == Dispatch::Answer,
        spec_dispatch(ServerConfig { unit: None }, u, <Rtu as ServerFraming>::spec_is_broadcast(u)) == (if u.0
            == 0 {
            Dispatch::Silent
        } else {
            Dispatch::Answer
        }),
{
}

/// What a failed receive leaves a connection to do: an end of file between
/// requests closes it quietly; any other I/O failure, a closed connection or
/// an elapsed wait is reported and ends it; a frame that did not decode is
/// reported, and ends the connection only on a framing that cannot find the
/// next frame on the wire. A failed send ends the connection only when the
/// stream itself failed.
pub proof fn lemma_failure_actions(kind: std::io::ErrorKind, e: Error, self_locating: bool)
    ensures
        is_unexpected_eof(kind) ==> spec_receive_failure(Error::Io { kind }, self_locating) == FailureAction::Close,
        !is_unexpected_eof(kind) ==> spec_receive_failure(Error::Io { kind }, self_locating)
            == FailureAction::ReportAndEnd(Error::Io { kind }),
        (e is ConnectionClosed || e is Timeout) ==> spec_receive_failure(e, self_locating)
            == FailureAction::ReportAndEnd(e),
        !(e is Io || e is ConnectionClosed || e is Timeout) ==> spec_receive_failure(e, self_locating) == (
        if self_locating {
            FailureAction::ReportAndContinue(e)
        } else {
            FailureAction::ReportAndEnd(e)
        }),
{
}

} // verus!
