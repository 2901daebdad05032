//! The one thing a client does differently per framing: how a header is
//! built, when a received header answers a sent one, and which unit
//! identifier broadcasts.

use vstd::prelude::*;

use crate::frame::ascii::Ascii;
use crate::frame::framing::Framing;
use crate::frame::rtu::{Rtu, RtuOverTcp};
use crate::frame::tcp::{MbapHeader, Tcp};
use crate::frame::value::{TransactionId, UnitId, BROADCAST_UNIT};

verus! {

/// A framing a client can issue requests over.
pub trait ClientFraming: Framing {
    /// The header of an outgoing request.
    spec fn spec_request_header(unit: UnitId, transaction: TransactionId) -> Self::Header;

    /// Whether a received header answers the one sent.
    spec fn spec_is_response_to(sent: Self::Header, received: Self::Header) -> bool;

    /// Whether a unit identifier addresses every server at once.
    spec fn spec_is_broadcast(unit: UnitId) -> bool;

    /// Build the header of an outgoing request.
    fn request_header(unit: UnitId, transaction: TransactionId) -> (h: Self::Header)
        ensures
            h == Self::spec_request_header(unit, transaction),
    ;

    /// Whether a received header answers the one sent.
    fn is_response_to(sent: &Self::Header, received: &Self::Header) -> (r: bool)
        ensures
            r == Self::spec_is_response_to(*sent, *received),
    ;

    /// Whether this unit identifier addresses every server at once.
    fn is_broadcast(unit: UnitId) -> (r: bool)
        ensures
            r == Self::spec_is_broadcast(unit),
    ;
}

impl ClientFraming for Tcp {
    open spec fn spec_request_header(unit: UnitId, transaction: TransactionId) -> MbapHeader {
        MbapHeader { transaction_id: transaction, unit_id: unit }
    }

    /// Both fields must agree: the transaction identifier alone would accept
    /// a reply from another unit behind a gateway.
    open spec fn spec_is_response_to(sent: MbapHeader, received: MbapHeader) -> bool {
        sent == received
    }

    /// Modbus TCP has no broadcast: a unit identifier is a gateway's routing
    /// field, not an address every device answers to.
    open spec fn spec_is_broadcast(unit: UnitId) -> bool {
        false
    }

    fn request_header(unit: UnitId, transaction: TransactionId) -> (h: MbapHeader) {
        MbapHeader { transaction_id: transaction, unit_id: unit }
    }

    fn is_response_to(sent: &MbapHeader, received: &MbapHeader) -> (r: bool) {
        *sent == *received
    }

    fn is_broadcast(unit: UnitId) -> (r: bool) {
        false
    }
}

impl ClientFraming for Rtu {
    /// The transaction identifier has nowhere to go on a serial line: the wire
    /// carries the address only.
    open spec fn spec_request_header(unit: UnitId, transaction: TransactionId) -> UnitId {
        unit
    }

    open spec fn spec_is_response_to(sent: UnitId, received: UnitId) -> bool {
        sent == received
    }

    /// Address 0 is the broadcast.
    open spec fn spec_is_broadcast(unit: UnitId) -> bool {
        unit.0 == BROADCAST_UNIT
    }

    fn request_header(unit: UnitId, transaction: TransactionId) -> (h: UnitId) {
        unit
    }

    fn is_response_to(sent: &UnitId, received: &UnitId) -> (r: bool) {
        *sent == *received
    }

    fn is_broadcast(unit: UnitId) -> (r: bool) {
        unit.0 == BROADCAST_UNIT
    }
}

impl ClientFraming for RtuOverTcp {
    open spec fn spec_request_header(unit: UnitId, transaction: TransactionId) -> UnitId {
        unit
    }

    open spec fn spec_is_response_to(sent: UnitId, received: UnitId) -> bool {
        sent == received
    }

    open spec fn spec_is_broadcast(unit: UnitId) -> bool {
        unit.0 == BROADCAST_UNIT
    }

    fn request_header(unit: UnitId, transaction: TransactionId) -> (h: UnitId) {
        unit
    }

    fn is_response_to(sent: &UnitId, received: &UnitId) -> (r: bool) {
        *sent == *received
    }

    fn is_broadcast(unit: UnitId) -> (r: bool) {
        unit.0 == BROADCAST_UNIT
    }
}

impl ClientFraming for Ascii {
    open spec fn spec_request_header(unit: UnitId, transaction: TransactionId) -> UnitId {
        unit
    }

    open spec fn spec_is_response_to(sent: UnitId, received: UnitId) -> bool {
        sent == received
    }

    open spec fn spec_is_broadcast(unit: UnitId) -> bool {
        unit.0 == BROADCAST_UNIT
    }

    fn request_header(unit: UnitId, transaction: TransactionId) -> (h: UnitId) {
        unit
    }

    fn is_response_to(sent: &UnitId, received: &UnitId) -> (r: bool) {
        *sent == *received
    }

    fn is_broadcast(unit: UnitId) -> (r: bool) {
        unit.0 == BROADCAST_UNIT
    }
}

/// How each framing addresses a request and recognises its reply. Over
/// Modbus TCP a request carries the unit and the transaction identifier, a
/// reply answers it exactly when both agree, and no unit identifier, 0
/// included, is a broadcast. On a serial line, RTU, RTU over TCP and ASCII
/// alike, the header is the unit alone, a reply answers when it names the same
/// unit, and unit 0 and no other is the broadcast.
pub proof fn lemma_client_headers(u: UnitId, t: TransactionId, s: MbapHeader, r: MbapHeader, a: UnitId, b: UnitId)
    ensures
        <Tcp as ClientFraming>::spec_request_header(u, t) == (MbapHeader { transaction_id: t, unit_id: u }),
        <Tcp as ClientFraming>::spec_is_response_to(s, r) == (s.transaction_id == r.transaction_id
            && s.unit_id == r.unit_id),
        !<Tcp as ClientFraming>::spec_is_broadcast(u),
        <Rtu as ClientFraming>::spec_request_header(u, t) == u,
        <RtuOverTcp as ClientFraming>::spec_request_header(u, t) == u,
        <Ascii as ClientFraming>::spec_request_header(u, t) == u,
        <Rtu as ClientFraming>::spec_is_response_to(a, b) == (a.0 == b.0),
        <RtuOverTcp as ClientFraming>::spec_is_response_to(a, b) == (a.0 == b.0),
        <Ascii as ClientFraming>::spec_is_response_to(a, b) == (a.0 == b.0),
        <Rtu as ClientFraming>::spec_is_broadcast(u) == (u.0 == 0),
        <RtuOverTcp as ClientFraming>::spec_is_broadcast(u) == (u.0 == 0),
        <Ascii as ClientFraming>::spec_is_broadcast(u) == (u.0 == 0),
{
}

} // verus!
