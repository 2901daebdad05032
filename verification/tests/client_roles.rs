use std::time::Duration;

use rust_modbus::{
    Ascii, ClientConfig, ClientFraming, MbapHeader, Rtu, RtuOverTcp, Tcp, TransactionId, UnitId,
};

#[test]
fn ut_request_header_per_framing() {
    assert_eq!(
        Tcp::request_header(UnitId(0x11), TransactionId(7)),
        MbapHeader {
            transaction_id: TransactionId(7),
            unit_id: UnitId(0x11),
        }
    );
    assert_eq!(Rtu::request_header(UnitId(0x11), TransactionId(7)), UnitId(0x11));
    assert_eq!(Ascii::request_header(UnitId(0x11), TransactionId(7)), UnitId(0x11));
}

#[test]
fn ut_tcp_matches_on_both_header_fields() {
    let sent = Tcp::request_header(UnitId(0x11), TransactionId(7));
    assert!(Tcp::is_response_to(&sent, &sent));
    assert!(!Tcp::is_response_to(
        &sent,
        &Tcp::request_header(UnitId(0x12), TransactionId(7))
    ));
    assert!(!Tcp::is_response_to(
        &sent,
        &Tcp::request_header(UnitId(0x11), TransactionId(8))
    ));
}

#[test]
fn ut_broadcast_is_a_framing_property() {
    assert!(Rtu::is_broadcast(UnitId(0)));
    assert!(Ascii::is_broadcast(UnitId(0)));
    assert!(!Rtu::is_broadcast(UnitId(1)));
    assert!(!Tcp::is_broadcast(UnitId(0)));
}

#[test]
fn ut_default_response_timeout() {
    assert_eq!(
        ClientConfig::default(),
        ClientConfig {
            response_timeout: Duration::from_secs(1),
        }
    );
}

#[test]
fn serial_headers_match_on_the_unit_alone() {
    let sent = RtuOverTcp::request_header(UnitId(0x11), TransactionId(7));
    assert!(RtuOverTcp::is_response_to(&sent, &UnitId(0x11)));
    assert!(!RtuOverTcp::is_response_to(&sent, &UnitId(0x12)));
    assert!(RtuOverTcp::is_broadcast(UnitId(0)));
}
