//! What boundary detection and connection setup take from their caller.

use vstd::prelude::*;

use core::time::Duration;

use crate::error::{Error, Result};
use crate::time::duration_as_nanos;
use crate::transport::serial::{spec_interval_nanos, SerialConfig};

verus! {

/// The inter-frame interval implied by the default serial line, 19200 8E1, in
/// nanoseconds.
pub const DEFAULT_INTER_FRAME_NANOS: u64 = 2_005_208;

/// The port documented for Modbus over TLS.
pub const MODBUS_TLS_PORT: u16 = 802;

/// What boundary detection needs that the framing itself cannot supply. Only
/// RTU consults it: TCP and ASCII ADUs are self-delimiting.
#[derive(Debug, Clone, Copy, PartialEq, Eq)]
pub struct TransportConfig {
    /// Silence that ends an RTU frame.
    pub inter_frame_interval: Duration,
}

impl Default for TransportConfig {
    fn default() -> (r: Self)
        ensures
            duration_as_nanos(r.inter_frame_interval) == DEFAULT_INTER_FRAME_NANOS,
    {
        TransportConfig { inter_frame_interval: Duration::from_nanos(DEFAULT_INTER_FRAME_NANOS) }
    }
}

impl TransportConfig {
    /// Derive the inter-frame interval from a serial line's parameters. Fails
    /// if the configuration implies no character time.
    pub fn from_serial(config: &SerialConfig) -> (r: Result<Self>)
        ensures
            match spec_interval_nanos(*config) {
                None => r == Err::<TransportConfig, Error>(Error::Configuration { field: "baud_rate" }),
                Some(n) => r matches Ok(t) && duration_as_nanos(t.inter_frame_interval) == n,
            },
    {
        match config.inter_frame_interval() {
            Ok(d) => Ok(TransportConfig { inter_frame_interval: d }),
            Err(e) => Err(e),
        }
    }
}

/// Seconds a TCP connection attempt may take by default.
pub const DEFAULT_CONNECT_TIMEOUT_SECS: u64 = 5;

/// How a TCP connection is established.
#[derive(Debug, Clone, Copy, PartialEq, Eq)]
pub struct TcpConfig {
    /// How long to wait for the connection to be established.
    pub connect_timeout: Duration,
    /// Whether to disable Nagle's algorithm.
    pub nodelay: bool,
}

impl Default for TcpConfig {
    fn default() -> (r: Self)
        ensures
            duration_as_nanos(r.connect_timeout) == DEFAULT_CONNECT_TIMEOUT_SECS * 1_000_000_000,
            r.nodelay,
    {
        TcpConfig { connect_timeout: Duration::from_secs(DEFAULT_CONNECT_TIMEOUT_SECS), nodelay: true }
    }
}

/// How a UDP transport is set up. Nothing is configurable yet; the type
/// exists so a setting can be added without changing any signature.
#[derive(Debug, Clone, Copy, PartialEq, Eq, Structural, Default)]
pub struct UdpConfig {}

} // verus!
