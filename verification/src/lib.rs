//! Modbus client and server logic over RTU, ASCII and TCP framing.
//!
//! Three layers, each usable on its own:
//!
//! - [`RequestPdu`] / [`ResponsePdu`] and the [`Framing`] implementations
//!   ([`Rtu`], [`RtuOverTcp`], [`Ascii`], [`Tcp`]) are pure encoding and
//!   decoding, with the round trips between them proved.
//! - [`FrameTransport`] holds the bytes read from a stream and finds where
//!   each ADU ends, by the framing's boundary rule.
//! - [`Client`] and the server's dispatch rules are the two roles on top:
//!   one issues requests and matches replies, the other decides which
//!   requests to hand to a service and which to answer.

pub mod client;
pub mod error;
pub mod frame;
pub mod server;
pub mod text;
pub mod time;
pub mod transport;

pub use client::framing::ClientFraming;
pub use client::typed::{CommEventCounter, CommEventLog};
pub use client::{Client, ClientConfig, ClientState, UnusableReason};
pub use error::{Error, Result};
pub use frame::ascii::Ascii;
pub use frame::diagnostics::DiagnosticSubFunction;
pub use frame::exception::{ExceptionCode, ExceptionResponse};
pub use frame::file::{FileRecordRead, FileRecordReadResponse, FileRecordWrite};
pub use frame::framing::{AduBoundary, Direction, Extent, ExtentRule, Framing, LengthRule};
pub use frame::function::FunctionCode;
pub use frame::mei::{DeviceIdObject, MeiRequest, MeiResponse, ReadDeviceIdCode};
pub use frame::pdu::mask_write_result;
pub use frame::pdu_model::{RequestPdu, ResponsePdu};
pub use frame::pdu_spec::MAX_PDU_LEN;
pub use frame::rtu::{Rtu, RtuOverTcp};
pub use frame::tcp::{MbapHeader, Tcp};
pub use frame::value::{
    Address, ExceptionStatus, FileNumber, Mask, Quantity, RecordLength, RecordNumber,
    RegisterValue, TransactionId, UnitId,
};
pub use server::framing::ServerFraming;
pub use server::{ConnectionId, Disconnect, ServerConfig};
pub use transport::config::{TcpConfig, TransportConfig, UdpConfig, MODBUS_TLS_PORT};
pub use transport::serial::{
    DataBits, FlowControl, Parity, Rs485Config, RtsPolarity, SerialConfig, StopBits,
};
pub use transport::FrameTransport;
