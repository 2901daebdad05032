//! The one thing a server does differently per framing: which unit a
//! received header addresses, and whether that unit is the broadcast every
//! device acts on and none answers.

use vstd::prelude::*;

use crate::frame::ascii::Ascii;
use crate::frame::framing::Framing;
use crate::frame::rtu::{Rtu, RtuOverTcp};
use crate::frame::tcp::{MbapHeader, Tcp};
use crate::frame::value::{UnitId, BROADCAST_UNIT};

verus! {

/// A framing a server can answer requests over.
pub trait ServerFraming: Framing {
    /// The unit identifier a header addresses.
    spec fn spec_unit(header: Self::Header) -> UnitId;

    /// Whether a unit identifier addresses every server at once.
    spec fn spec_is_broadcast(unit: UnitId) -> bool;

    /// The unit identifier a received header addresses.
    fn unit(header: &Self::Header) -> (u: UnitId)
        ensures
            u == Self::spec_unit(*header),
    ;

    /// Whether that identifier addresses every server at once, and so must
    /// not be answered.
    fn is_broadcast(unit: UnitId) -> (r: bool)
        ensures
            r == Self::spec_is_broadcast(unit),
    ;
}

impl ServerFraming for Tcp {
    open spec fn spec_unit(header: MbapHeader) -> UnitId {
        header.unit_id
    }

    /// Modbus TCP has no broadcast: the unit identifier is a gateway's routing
    /// field, not an address every device answers to.
    open spec fn spec_is_broadcast(unit: UnitId) -> bool {
        false
    }

    fn unit(header: &MbapHeader) -> (u: UnitId) {
        header.unit_id
    }

    fn is_broadcast(unit: UnitId) -> (r: bool) {
        false
    }
}

impl ServerFraming for Rtu {
    /// On a serial line the header is the address.
    open spec fn spec_unit(header: UnitId) -> UnitId {
        header
    }

    /// Address 0 is the broadcast.
    open spec fn spec_is_broadcast(unit: UnitId) -> bool {
        unit.0 == BROADCAST_UNIT
    }

    fn unit(header: &UnitId) -> (u: UnitId) {
        *header
    }

    fn is_broadcast(unit: UnitId) -> (r: bool) {
        unit.0 == BROADCAST_UNIT
    }
}

impl ServerFraming for RtuOverTcp {
    open spec fn spec_unit(header: UnitId) -> UnitId {
        header
    }

    open spec fn spec_is_broadcast(unit: UnitId) -> bool {
        unit.0 == BROADCAST_UNIT
    }

    fn unit(header: &UnitId) -> (u: UnitId) {
        *header
    }

    fn is_broadcast(unit: UnitId) -> (r: bool) {
        unit.0 == BROADCAST_UNIT
    }
}

impl ServerFraming for Ascii {
    open spec fn spec_unit(header: UnitId) -> UnitId {
        header
    }

    open spec fn spec_is_broadcast(unit: UnitId) -> bool {
        unit.0 == BROADCAST_UNIT
    }

    fn unit(header: &UnitId) -> (u: UnitId) {
        *header
    }

    fn is_broadcast(unit: UnitId) -> (r: bool) {
        unit.0 == BROADCAST_UNIT
    }
}

/// Which unit a request addresses and which units broadcast, per framing.
/// Modbus TCP has no broadcast: no unit identifier, 0 included, addresses
/// every server, and the unit is the header's unit identifier. On a serial
/// line, RTU, RTU over TCP and ASCII alike, the header is the unit, and unit 0
/// and no other is the broadcast.
pub proof fn lemma_server_units(u: UnitId, h: MbapHeader)
    ensures
        !<Tcp as ServerFraming>::spec_is_broadcast(u),
        <Tcp as ServerFraming>::spec_unit(h) == h.unit_id,
        <Rtu as ServerFraming>::spec_is_broadcast(u) == (u.0 == 0),
        <RtuOverTcp as ServerFraming>::spec_is_broadcast(u) == (u.0 == 0),
        <Ascii as ServerFraming>::spec_is_broadcast(u) == (u.0 == 0),
        <Rtu as ServerFraming>::spec_unit(u) == u,
        <RtuOverTcp as ServerFraming>::spec_unit(u) == u,
        <Ascii as ServerFraming>::spec_unit(u) == u,
{
}

} // verus!
