//! Serial port configuration, the timing it implies, and the kernel's RS-485
//! direction-control settings it assembles.

use vstd::prelude::*;

use core::time::Duration;

use crate::error::{Error, Result};
use crate::time::duration_as_nanos;

verus! {

/// Above this baud rate the inter-frame interval stops tracking the character
/// time and is fixed.
pub const FIXED_INTERVAL_ABOVE_BAUD: u32 = 19_200;

/// The fixed interval used above [`FIXED_INTERVAL_ABOVE_BAUD`], in
/// microseconds.
pub const FIXED_INTERVAL_MICROS: u64 = 1_750;

/// Bits per character, excluding start, parity, and stop bits.
#[derive(Debug, Clone, Copy, PartialEq, Eq, Structural, Default)]
pub enum DataBits {
    /// Five data bits.
    Five,
    /// Six data bits.
    Six,
    /// Seven data bits.
    Seven,
    /// Eight data bits, the Modbus default.
    #[default]
    Eight,
}

/// Parity checking.
#[derive(Debug, Clone, Copy, PartialEq, Eq, Structural, Default)]
pub enum Parity {
    /// No parity bit.
    NoParity,
    /// Odd parity.
    Odd,
    /// Even parity, the Modbus default.
    #[default]
    Even,
}

/// Stop bits following a character.
#[derive(Debug, Clone, Copy, PartialEq, Eq, Structural, Default)]
pub enum StopBits {
    /// One stop bit, the Modbus default.
    #[default]
    One,
    /// Two stop bits.
    Two,
}

/// Flow control on the line.
#[derive(Debug, Clone, Copy, PartialEq, Eq, Structural, Default)]
pub enum FlowControl {
    /// No flow control, the Modbus default.
    #[default]
    NoFlowControl,
    /// XON/XOFF.
    Software,
    /// RTS/CTS.
    Hardware,
}

/// The RTS level asserted while transmitting, under RS-485 kernel direction
/// control.
#[derive(Debug, Clone, Copy, PartialEq, Eq, Structural)]
pub enum RtsPolarity {
    /// RTS driven high while transmitting.
    High,
    /// RTS driven low while transmitting.
    Low,
}

/// Kernel RS-485 direction control for a serial port.
#[derive(Debug, Clone, Copy, PartialEq, Eq)]
pub struct Rs485Config {
    /// The RTS level asserted while transmitting; the level asserted
    /// afterwards is always its complement.
    pub rts_on_send: RtsPolarity,
    /// Delay held before a transmission begins, at full resolution; truncated
    /// to whole milliseconds only where it is handed to the kernel.
    pub delay_before_send: Duration,
    /// Delay held after a transmission ends.
    pub delay_after_send: Duration,
}

/// How a serial port is opened. The default is the Modbus serial-line
/// default: 19200 baud, 8 data bits, even parity, one stop bit, no flow
/// control, no RS-485 configuration.
#[derive(Debug, Clone, Copy, PartialEq, Eq)]
pub struct SerialConfig {
    /// Symbols per second.
    pub baud_rate: u32,
    /// Data bits per character.
    pub data_bits: DataBits,
    /// Parity checking.
    pub parity: Parity,
    /// Stop bits per character.
    pub stop_bits: StopBits,
    /// Flow control.
    pub flow_control: FlowControl,
    /// Kernel RS-485 direction control; `None` requests none.
    pub rs485: Option<Rs485Config>,
}

impl Default for SerialConfig {
    fn default() -> (r: Self)
        ensures
            r.baud_rate == 19_200,
            r.data_bits == DataBits::Eight,
            r.parity == Parity::Even,
            r.stop_bits == StopBits::One,
            r.flow_control == FlowControl::NoFlowControl,
            r.rs485 is None,
    {
        SerialConfig {
            baud_rate: 19_200,
            data_bits: DataBits::Eight,
            parity: Parity::Even,
            stop_bits: StopBits::One,
            flow_control: FlowControl::NoFlowControl,
            rs485: None,
        }
    }
}

/// Bits on the wire per character: one start bit, the data bits, a parity
/// bit if any, and the stop bits.
pub open spec fn spec_bits_per_character(c: SerialConfig) -> u32 {
    let data: u32 = match c.data_bits {
        DataBits::Five => 5,
        DataBits::Six => 6,
        DataBits::Seven => 7,
        DataBits::Eight => 8,
    };
    let parity: u32 = match c.parity {
        Parity::NoParity => 0,
        _ => 1,
    };
    let stop: u32 = match c.stop_bits {
        StopBits::One => 1,
        StopBits::Two => 2,
    };
    (1 + data + parity + stop) as u32
}

/// The silence, in nanoseconds, that separates two RTU frames: 3.5 character
/// times, or a fixed 1.75 ms above 19200 baud; `None` for a baud rate of zero.
pub open spec fn spec_interval_nanos(c: SerialConfig) -> Option<int> {
    if c.baud_rate == 0 {
        None
    } else if c.baud_rate > FIXED_INTERVAL_ABOVE_BAUD {
        Some(FIXED_INTERVAL_MICROS * 1_000)
    } else {
        Some(spec_bits_per_character(c) * 7_000_000_000 / (2 * c.baud_rate))
    }
}

impl SerialConfig {
    /// Bits on the wire per character.
    pub fn bits_per_character(&self) -> (r: u32)
        ensures
            r == spec_bits_per_character(*self),
            7 <= r <= 12,
    {
        let data: u32 = match self.data_bits {
            DataBits::Five => 5,
            DataBits::Six => 6,
            DataBits::Seven => 7,
            DataBits::Eight => 8,
        };
        let parity: u32 = match self.parity {
            Parity::NoParity => 0,
            Parity::Odd | Parity::Even => 1,
        };
        let stop: u32 = match self.stop_bits {
            StopBits::One => 1,
            StopBits::Two => 2,
        };
        1 + data + parity + stop
    }

    /// Silence that separates two RTU frames: 3.5 character times, or a fixed
    /// 1.75 ms above 19200 baud. A baud rate of zero, from which no character
    /// time can be derived, is a configuration error.
    pub fn inter_frame_interval(&self) -> (r: Result<Duration>)
        ensures
            match spec_interval_nanos(*self) {
                None => r == Err::<Duration, Error>(Error::Configuration { field: "baud_rate" }),
                Some(n) => r matches Ok(d) && duration_as_nanos(d) == n,
            },
    {
        if self.baud_rate == 0 {
            return Err(Error::Configuration { field: "baud_rate" });
        }
        if self.baud_rate > FIXED_INTERVAL_ABOVE_BAUD {
            return Ok(Duration::from_micros(FIXED_INTERVAL_MICROS));
        }
        let bits = self.bits_per_character() as u64;
        let nanos = bits * 7_000_000_000 / (2 * self.baud_rate as u64);
        Ok(Duration::from_nanos(nanos))
    }
}

// ---------------------------------------------------------------------------
// The kernel's RS-485 settings.

/// RS-485 mode enabled.
pub const SER_RS485_ENABLED: u32 = 1;

/// RTS driven high, rather than low, while transmitting.
pub const SER_RS485_RTS_ON_SEND: u32 = 2;

/// RTS driven high, rather than low, after transmitting.
pub const SER_RS485_RTS_AFTER_SEND: u32 = 4;

/// The kernel's RS-485 settings: mode flags and the two delays in whole
/// milliseconds, the kernel's own resolution.
#[derive(Debug, Clone, Copy, PartialEq, Eq, Structural)]
pub struct KernelRs485 {
    /// Mode flags.
    pub flags: u32,
    /// Milliseconds RTS is held before a transmission.
    pub delay_rts_before_send: u32,
    /// Milliseconds RTS is held after a transmission.
    pub delay_rts_after_send: u32,
}

/// The whole milliseconds a duration spans.
pub open spec fn millis_of(d: Duration) -> int {
    duration_as_nanos(d) as int / 1_000_000
}

/// The flags for a polarity: the after-send level is always the complement of
/// the on-send level, so one polarity sets exactly one of the two level bits.
pub open spec fn spec_rs485_flags(p: RtsPolarity) -> u32 {
    match p {
        RtsPolarity::High => SER_RS485_ENABLED | SER_RS485_RTS_ON_SEND,
        RtsPolarity::Low => SER_RS485_ENABLED | SER_RS485_RTS_AFTER_SEND,
    }
}

/// What assembling the kernel settings yields: a delay whose millisecond count
/// does not fit the kernel's 32-bit field is a configuration error naming it.
pub open spec fn spec_build(c: Rs485Config) -> Result<KernelRs485> {
    if millis_of(c.delay_before_send) > u32::MAX {
        Err(Error::Configuration { field: "delay_before_send" })
    } else if millis_of(c.delay_after_send) > u32::MAX {
        Err(Error::Configuration { field: "delay_after_send" })
    } else {
        Ok(KernelRs485 {
            flags: spec_rs485_flags(c.rts_on_send),
            delay_rts_before_send: millis_of(c.delay_before_send) as u32,
            delay_rts_after_send: millis_of(c.delay_after_send) as u32,
        })
    }
}

/// Truncate a duration to whole milliseconds, failing rather than wrapping
/// when the count does not fit in 32 bits.
pub fn truncate_to_millis(delay: Duration, field: &'static str) -> (r: Result<u32>)
    ensures
        r == (if millis_of(delay) > u32::MAX {
            Err::<u32, Error>(Error::Configuration { field })
        } else {
            Ok(millis_of(delay) as u32)
        }),
{
    let millis = delay.as_millis();
    if millis > u32::MAX as u128 {
        Err(Error::Configuration { field })
    } else {
        Ok(millis as u32)
    }
}

/// Assemble the kernel's RS-485 settings from a configuration.
pub fn build(config: &Rs485Config) -> (r: Result<KernelRs485>)
    ensures
        r == spec_build(*config),
{
    let flags = match config.rts_on_send {
        RtsPolarity::High => SER_RS485_ENABLED | SER_RS485_RTS_ON_SEND,
        RtsPolarity::Low => SER_RS485_ENABLED | SER_RS485_RTS_AFTER_SEND,
    };
    let before = match truncate_to_millis(config.delay_before_send, "delay_before_send") {
        Ok(v) => v,
        Err(e) => return Err(e),
    };
    let after = match truncate_to_millis(config.delay_after_send, "delay_after_send") {
        Ok(v) => v,
        Err(e) => return Err(e),
    };
    Ok(KernelRs485 { flags, delay_rts_before_send: before, delay_rts_after_send: after })
}

/// The on-send and after-send level bits are complements: exactly one is set,
/// whichever the polarity.
pub proof fn lemma_rs485_levels_complement(p: RtsPolarity)
    ensures
        (spec_rs485_flags(p) & SER_RS485_RTS_ON_SEND != 0) != (spec_rs485_flags(p) & SER_RS485_RTS_AFTER_SEND != 0),
        spec_rs485_flags(p) & SER_RS485_ENABLED != 0,
        (spec_rs485_flags(p) & SER_RS485_RTS_ON_SEND != 0) == (p == RtsPolarity::High),
{
    assert((1u32 | 2u32) & 2u32 != 0 && (1u32 | 2u32) & 4u32 == 0 && (1u32 | 2u32) & 1u32 != 0) by (bit_vector);
    assert((1u32 | 4u32) & 2u32 == 0 && (1u32 | 4u32) & 4u32 != 0 && (1u32 | 4u32) & 1u32 != 0) by (bit_vector);
}

} // verus!
