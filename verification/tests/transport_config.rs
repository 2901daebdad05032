use std::time::Duration;

use rust_modbus::transport::serial::{
    build, SER_RS485_ENABLED, SER_RS485_RTS_AFTER_SEND, SER_RS485_RTS_ON_SEND,
};
use rust_modbus::{
    DataBits, Error, FlowControl, Parity, Rs485Config, RtsPolarity, SerialConfig, StopBits,
    TcpConfig, TransportConfig, MODBUS_TLS_PORT,
};

#[test]
fn ut_serial_defaults_are_19200_8e1() {
    assert_eq!(
        SerialConfig::default(),
        SerialConfig {
            baud_rate: 19_200,
            data_bits: DataBits::Eight,
            parity: Parity::Even,
            stop_bits: StopBits::One,
            flow_control: FlowControl::NoFlowControl,
            rs485: None,
        }
    );
}

#[test]
fn ut_interframe_interval_from_baud() {
    let at_9600 = SerialConfig {
        baud_rate: 9_600,
        ..SerialConfig::default()
    };
    assert_eq!(
        at_9600.inter_frame_interval(),
        Ok(Duration::from_nanos(4_010_416))
    );

    let no_parity = SerialConfig {
        parity: Parity::NoParity,
        ..at_9600
    };
    assert_eq!(
        no_parity.inter_frame_interval(),
        Ok(Duration::from_nanos(3_645_833))
    );

    let two_stop = SerialConfig {
        stop_bits: StopBits::Two,
        ..at_9600
    };
    assert_eq!(
        two_stop.inter_frame_interval(),
        Ok(Duration::from_nanos(4_375_000))
    );
}

#[test]
fn ut_interframe_interval_is_fixed_above_19200() {
    assert_eq!(
        SerialConfig::default().inter_frame_interval(),
        Ok(Duration::from_nanos(2_005_208))
    );
    for baud_rate in [19_201, 38_400, 57_600, 115_200] {
        let config = SerialConfig {
            baud_rate,
            ..SerialConfig::default()
        };
        assert_eq!(
            config.inter_frame_interval(),
            Ok(Duration::from_micros(1_750)),
            "{baud_rate} baud"
        );
    }
}

#[test]
fn ut_zero_baud_rate_is_a_configuration_error() {
    let config = SerialConfig {
        baud_rate: 0,
        ..SerialConfig::default()
    };
    assert_eq!(
        config.inter_frame_interval(),
        Err(Error::Configuration { field: "baud_rate" })
    );
}

#[test]
fn ut_rs485_field_default_is_none() {
    assert_eq!(SerialConfig::default().rs485, None);
}

#[test]
fn ut_rs485_flags_and_delays_assembled() {
    let config = Rs485Config {
        rts_on_send: RtsPolarity::High,
        delay_before_send: Duration::from_millis(3),
        delay_after_send: Duration::from_millis(7),
    };
    let kernel = build(&config).expect("valid delays");
    assert_ne!(kernel.flags & SER_RS485_ENABLED, 0, "mode must be enabled");
    assert_eq!(kernel.delay_rts_before_send, 3);
    assert_eq!(kernel.delay_rts_after_send, 7);
}

#[test]
fn ut_rs485_after_send_is_complement_of_on_send() {
    let high = build(&Rs485Config {
        rts_on_send: RtsPolarity::High,
        delay_before_send: Duration::ZERO,
        delay_after_send: Duration::ZERO,
    })
    .expect("valid delays");
    assert_ne!(high.flags & SER_RS485_RTS_ON_SEND, 0);
    assert_eq!(high.flags & SER_RS485_RTS_AFTER_SEND, 0);

    let low = build(&Rs485Config {
        rts_on_send: RtsPolarity::Low,
        delay_before_send: Duration::ZERO,
        delay_after_send: Duration::ZERO,
    })
    .expect("valid delays");
    assert_eq!(low.flags & SER_RS485_RTS_ON_SEND, 0);
    assert_ne!(low.flags & SER_RS485_RTS_AFTER_SEND, 0);
}

#[test]
fn ut_rs485_delay_truncated_to_milliseconds() {
    let config = Rs485Config {
        rts_on_send: RtsPolarity::High,
        delay_before_send: Duration::from_micros(2_999),
        delay_after_send: Duration::from_micros(1_001),
    };
    let kernel = build(&config).expect("valid delays");
    assert_eq!(kernel.delay_rts_before_send, 2);
    assert_eq!(kernel.delay_rts_after_send, 1);
}

#[test]
fn ut_rs485_delay_overflow_is_configuration_error() {
    let too_long = Duration::from_millis(u64::from(u32::MAX) + 1);
    let config = Rs485Config {
        rts_on_send: RtsPolarity::High,
        delay_before_send: too_long,
        delay_after_send: Duration::ZERO,
    };
    assert_eq!(
        build(&config),
        Err(Error::Configuration {
            field: "delay_before_send"
        })
    );
}

#[test]
fn rs485_after_send_delay_overflow_names_its_field() {
    let config = Rs485Config {
        rts_on_send: RtsPolarity::Low,
        delay_before_send: Duration::ZERO,
        delay_after_send: Duration::from_millis(u64::from(u32::MAX) + 1),
    };
    assert_eq!(
        build(&config),
        Err(Error::Configuration {
            field: "delay_after_send"
        })
    );
}

#[test]
fn ut_tcp_config_defaults() {
    assert_eq!(
        TcpConfig::default(),
        TcpConfig {
            connect_timeout: Duration::from_secs(5),
            nodelay: true,
        }
    );
}

#[test]
fn ut_modbus_tls_port_is_802() {
    assert_eq!(MODBUS_TLS_PORT, 802);
}

#[test]
fn transport_config_follows_the_serial_line() {
    assert_eq!(
        TransportConfig::default().inter_frame_interval,
        Duration::from_nanos(2_005_208)
    );
    let at_9600 = SerialConfig {
        baud_rate: 9_600,
        ..SerialConfig::default()
    };
    assert_eq!(
        TransportConfig::from_serial(&at_9600).map(|c| c.inter_frame_interval),
        Ok(Duration::from_nanos(4_010_416))
    );
    let seven_odd_two = SerialConfig {
        baud_rate: 9_600,
        data_bits: DataBits::Seven,
        parity: Parity::Odd,
        stop_bits: StopBits::Two,
        ..SerialConfig::default()
    };
    assert_eq!(seven_odd_two.bits_per_character(), 11);
    assert_eq!(
        TransportConfig::from_serial(&SerialConfig {
            baud_rate: 0,
            ..SerialConfig::default()
        }),
        Err(Error::Configuration { field: "baud_rate" })
    );
}
