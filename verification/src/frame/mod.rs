//! Modbus PDU and ADU encoding and decoding.
//!
//! Role-agnostic: everything here is true of a byte sequence regardless of
//! whether a client or a server produced it.

pub mod adu_laws;
pub mod ascii;
pub mod diagnostics;
pub mod exception;
pub mod extent_laws;
pub mod file;
pub mod framing;
pub mod function;
pub mod layout_laws;
pub mod mei;
pub mod pdu;
pub mod pdu_model;
pub mod pdu_spec;
pub mod reencode;
pub mod roundtrip;
pub mod rtu;
pub mod tcp;
pub mod value;
pub mod wire;
