use rust_modbus::{Ascii, MbapHeader, Rtu, ServerFraming, Tcp, TransactionId, UnitId};

#[test]
fn ut_unit_comes_out_of_any_header() {
    assert_eq!(
        Tcp::unit(&MbapHeader {
            transaction_id: TransactionId(7),
            unit_id: UnitId(0x11),
        }),
        UnitId(0x11)
    );
    assert_eq!(Rtu::unit(&UnitId(0x11)), UnitId(0x11));
    assert_eq!(Ascii::unit(&UnitId(0x11)), UnitId(0x11));
}

#[test]
fn ut_broadcast_is_a_framing_property_for_the_server() {
    assert!(Rtu::is_broadcast(UnitId(0)));
    assert!(Ascii::is_broadcast(UnitId(0)));
    assert!(!Rtu::is_broadcast(UnitId(1)));
    assert!(!Tcp::is_broadcast(UnitId(0)));
}
