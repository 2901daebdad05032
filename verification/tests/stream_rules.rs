use rust_modbus::client::{classify_unusable_reason, next};
use rust_modbus::client::typed::{answer_of, check_answerable, coils_of, holding_registers_of};
use rust_modbus::server::{dispatch, receive_failure, response_for, send_failure, Dispatch, FailureAction};
use rust_modbus::transport::{end_of_stream, Step};
use rust_modbus::{
    Address, Ascii, Client, ClientState, Direction, Error, ExceptionCode, ExceptionResponse,
    FrameTransport, Framing, FunctionCode, MbapHeader, Quantity, RegisterValue, RequestPdu, ResponsePdu,
    Rtu, RtuOverTcp, ServerConfig, Tcp, TransactionId, UnitId, UnusableReason,
};

fn read_holding() -> RequestPdu {
    RequestPdu::ReadHoldingRegisters {
        address: Address(0x006B),
        quantity: Quantity(3),
    }
}

#[test]
fn tcp_stream_waits_for_its_length_then_splits_two_adus() {
    let mut t: FrameTransport<(), Tcp> = FrameTransport::new(());
    assert_eq!(
        t.next_step(Direction::Request),
        Ok(Step::NeedMore { mid_adu: false })
    );
    t.extend(&[0x00, 0x01, 0x00]);
    assert_eq!(
        t.next_step(Direction::Request),
        Ok(Step::NeedMore { mid_adu: true })
    );
    let adu = [0x00, 0x01, 0x00, 0x00, 0x00, 0x06, 0x11, 0x03, 0x00, 0x6B, 0x00, 0x03];
    t.extend(&adu[3..]);
    t.extend(&adu);
    assert_eq!(t.next_step(Direction::Request), Ok(Step::Complete(12)));
    assert_eq!(t.take(12), adu.to_vec());
    assert_eq!(t.next_step(Direction::Request), Ok(Step::Complete(12)));
    assert_eq!(t.take(12), adu.to_vec());
    assert_eq!(
        t.next_step(Direction::Request),
        Ok(Step::NeedMore { mid_adu: false })
    );
}

#[test]
fn tcp_invalid_length_is_rejected_before_reading_on() {
    let mut t: FrameTransport<(), Tcp> = FrameTransport::new(());
    t.extend(&[0x00, 0x01, 0x00, 0x00, 0x01, 0x00]);
    assert_eq!(
        t.next_step(Direction::Request),
        Err(Error::OutOfRange {
            field: "MBAP length",
            value: 256,
            min: 1,
            max: 254
        })
    );
}

#[test]
fn ascii_stream_drops_leading_garbage_and_finds_the_terminator() {
    let mut t: FrameTransport<(), Ascii> = FrameTransport::new(());
    t.extend(b"xx:1103006B00037E\r");
    assert_eq!(
        t.next_step(Direction::Request),
        Ok(Step::NeedMore { mid_adu: true })
    );
    t.extend(b"\n:11");
    assert_eq!(t.next_step(Direction::Request), Ok(Step::Complete(17)));
    let adu = t.take(17);
    assert_eq!(adu, b":1103006B00037E\r\n".to_vec());
    assert_eq!(
        Ascii::decode_request(&adu),
        Ok((UnitId(0x11), read_holding()))
    );
    assert_eq!(
        t.next_step(Direction::Request),
        Ok(Step::NeedMore { mid_adu: true })
    );

    let mut garbage: FrameTransport<(), Ascii> = FrameTransport::new(());
    garbage.extend(b"no start here");
    assert_eq!(
        garbage.next_step(Direction::Request),
        Ok(Step::NeedMore { mid_adu: false })
    );
}

#[test]
fn rtu_waits_for_silence_and_rtu_over_tcp_for_content() {
    let mut rtu: FrameTransport<(), Rtu> = FrameTransport::new(());
    assert_eq!(
        rtu.next_step(Direction::Response),
        Ok(Step::NeedMore { mid_adu: false })
    );
    rtu.extend(&[0x11, 0x03]);
    assert_eq!(rtu.next_step(Direction::Response), Ok(Step::UntilSilence));

    let mut over_tcp: FrameTransport<(), RtuOverTcp> = FrameTransport::new(());
    over_tcp.extend(&[0x11, 0x03, 0x00]);
    assert_eq!(
        over_tcp.next_step(Direction::Request),
        Ok(Step::NeedMore { mid_adu: true })
    );
    over_tcp.extend(&[0x6B, 0x00, 0x03, 0x76, 0x87, 0x11]);
    assert_eq!(over_tcp.next_step(Direction::Request), Ok(Step::Complete(8)));
}

#[test]
fn a_full_buffer_without_an_adu_is_too_large() {
    let mut rtu: FrameTransport<(), Rtu> = FrameTransport::new(());
    rtu.extend(&[0u8; 256]);
    assert_eq!(rtu.check_buffer_bound(), Err(Error::AduTooLarge { len: 256, max: 256 }));
    assert_eq!(
        rtu.next_step(Direction::Request),
        Err(Error::AduTooLarge { len: 256, max: 256 })
    );
}

#[test]
fn a_failed_receive_clears_only_a_self_locating_buffer() {
    let mut rtu: FrameTransport<(), Rtu> = FrameTransport::new(());
    assert_eq!(rtu.begin_receive(), Ok(()));
    assert_eq!(rtu.begin_receive(), Err(Error::Timeout { what: "receive" }));
    rtu.extend(&[0x11, 0x03]);
    rtu.end_receive(true);
    assert_eq!(rtu.next_step(Direction::Request), Ok(Step::NeedMore { mid_adu: false }));

    let mut tcp: FrameTransport<(), Tcp> = FrameTransport::new(());
    assert_eq!(tcp.begin_receive(), Ok(()));
    tcp.extend(&[0x00, 0x01]);
    tcp.end_receive(true);
    assert_eq!(tcp.next_step(Direction::Request), Ok(Step::NeedMore { mid_adu: true }));
}

#[test]
fn the_end_of_stream_depends_on_where_it_falls() {
    assert_eq!(end_of_stream(true), Error::ConnectionClosed);
    assert_eq!(
        end_of_stream(false),
        Error::Io {
            kind: std::io::ErrorKind::UnexpectedEof
        }
    );
}

#[test]
fn prepared_requests_are_the_framed_encoding() {
    let mut t: FrameTransport<(), Tcp> = FrameTransport::new(());
    let header = MbapHeader {
        transaction_id: TransactionId(1),
        unit_id: UnitId(0x11),
    };
    assert_eq!(t.prepare_request(&header, &read_holding()), Ok(()));
    let (out, _) = t.outgoing_and_stream();
    assert_eq!(
        out,
        &[0x00, 0x01, 0x00, 0x00, 0x00, 0x06, 0x11, 0x03, 0x00, 0x6B, 0x00, 0x03]
    );
    t.sent();
    let (out, _) = t.outgoing_and_stream();
    assert!(out.is_empty());
}

#[test]
fn client_walks_through_one_exchange() {
    let mut client: Client<(), Tcp> = Client::new(FrameTransport::new(()));
    assert_eq!(client.state(), ClientState::Untried);
    let sent = client
        .begin_call(UnitId(0x11), &read_holding())
        .expect("encodes");
    assert_eq!(sent.transaction_id, TransactionId(1));
    assert!(client.sent(UnitId(0x11)));

    // Another exchange's reply is discarded, the state untouched.
    let other = MbapHeader {
        transaction_id: TransactionId(9),
        unit_id: UnitId(0x11),
    };
    let response = ResponsePdu::ReadHoldingRegisters {
        registers: vec![RegisterValue(1), RegisterValue(2), RegisterValue(3)],
    };
    assert_eq!(
        client.received(&sent, &other, FunctionCode::ReadHoldingRegisters, response.clone()),
        None
    );
    assert_eq!(client.state(), ClientState::Untried);

    assert_eq!(
        client.received(&sent, &sent, FunctionCode::ReadHoldingRegisters, response.clone()),
        Some(Ok(response.clone()))
    );
    assert_eq!(client.state(), ClientState::Answered);

    // The next call carries the next identifier.
    let second = client
        .begin_call(UnitId(0x11), &read_holding())
        .expect("encodes");
    assert_eq!(second.transaction_id, TransactionId(2));
    assert!(client.sent(UnitId(0x11)));
    assert_eq!(
        client.received(&second, &second, FunctionCode::ReadCoils, response.clone()),
        Some(Err(Error::UnexpectedFunction {
            expected: FunctionCode::ReadCoils,
            actual: FunctionCode::ReadHoldingRegisters
        }))
    );
    assert_eq!(client.state(), ClientState::Answered);

    assert_eq!(client.timed_out(), Error::Timeout { what: "response" });
    assert_eq!(client.state(), ClientState::Unusable(UnusableReason::Silent));
    assert!(client.is_desynchronized());
    assert_eq!(
        client.begin_call(UnitId(0x11), &read_holding()),
        Err(Error::Desynchronized)
    );
}

#[test]
fn client_failures_are_classified_by_framing() {
    let mut rtu: Client<(), Rtu> = Client::new(FrameTransport::new(()));
    assert_eq!(rtu.receive_failed(Error::Malformed), Error::Malformed);
    assert_eq!(rtu.state(), ClientState::Unanswered);

    let mut tcp: Client<(), Tcp> = Client::new(FrameTransport::new(()));
    assert_eq!(tcp.receive_failed(Error::Malformed), Error::Malformed);
    assert_eq!(tcp.state(), ClientState::Unusable(UnusableReason::Undecodable));

    let mut broken: Client<(), Rtu> = Client::new(FrameTransport::new(()));
    let kind = std::io::ErrorKind::BrokenPipe;
    assert_eq!(broken.send_failed(Error::Io { kind }), Error::Io { kind });
    assert_eq!(broken.state(), ClientState::Unusable(UnusableReason::Io { kind }));

    // An unencodable request spends no identifier.
    let mut fresh: Client<(), Tcp> = Client::new(FrameTransport::new(()));
    assert!(fresh
        .begin_call(
            UnitId(1),
            &RequestPdu::ReadCoils {
                address: Address(0),
                quantity: Quantity(0)
            }
        )
        .is_err());
    let header = fresh.begin_call(UnitId(1), &read_holding()).expect("encodes");
    assert_eq!(header.transaction_id, TransactionId(1));
}

#[test]
fn broadcasts_are_not_awaited() {
    let mut client: Client<(), Rtu> = Client::new(FrameTransport::new(()));
    client
        .begin_call(
            UnitId(0),
            &RequestPdu::WriteSingleCoil {
                address: Address(1),
                value: true,
            },
        )
        .expect("encodes");
    assert!(!client.sent(UnitId(0)));
    assert_eq!(client.state(), ClientState::Untried);
    assert_eq!(
        check_answerable::<Rtu>(UnitId(0)),
        Err(Error::IllegalValue {
            field: "broadcast read",
            value: 0
        })
    );
    assert_eq!(check_answerable::<Tcp>(UnitId(0)), Ok(()));
}

#[test]
fn identifiers_wrap_past_zero() {
    assert_eq!(next(TransactionId(1)), TransactionId(2));
    assert_eq!(next(TransactionId(u16::MAX)), TransactionId(1));
}

#[test]
fn unusable_reasons_name_what_was_observed() {
    assert_eq!(classify_unusable_reason(&Error::ConnectionClosed), UnusableReason::PeerClosed);
    assert_eq!(
        classify_unusable_reason(&Error::Io {
            kind: std::io::ErrorKind::UnexpectedEof
        }),
        UnusableReason::PeerClosed
    );
    assert_eq!(
        classify_unusable_reason(&Error::Io {
            kind: std::io::ErrorKind::ConnectionReset
        }),
        UnusableReason::Io {
            kind: std::io::ErrorKind::ConnectionReset
        }
    );
    assert_eq!(
        classify_unusable_reason(&Error::Timeout { what: "response" }),
        UnusableReason::Silent
    );
    assert_eq!(classify_unusable_reason(&Error::Malformed), UnusableReason::Undecodable);
}

#[test]
fn answers_become_values_or_errors() {
    let exception = ExceptionResponse {
        function: FunctionCode::ReadCoils,
        exception: ExceptionCode::IllegalDataAddress,
    };
    assert_eq!(
        answer_of(Some(ResponsePdu::Exception(exception))),
        Err(Error::Exception {
            function: FunctionCode::ReadCoils,
            exception: ExceptionCode::IllegalDataAddress
        })
    );
    assert_eq!(answer_of(None), Err(Error::Desynchronized));
    let coils = ResponsePdu::ReadCoils {
        coils: vec![true, false, true, false, false, false, false, false],
    };
    assert_eq!(answer_of(Some(coils.clone())), Ok(coils.clone()));
    assert_eq!(coils_of(coils.clone(), Quantity(3)), Ok(vec![true, false, true]));
    assert_eq!(
        holding_registers_of(coils),
        Err(Error::UnexpectedFunction {
            expected: FunctionCode::ReadHoldingRegisters,
            actual: FunctionCode::ReadCoils
        })
    );
}

#[test]
fn server_dispatch_rules() {
    let any = ServerConfig::default();
    let only = ServerConfig {
        unit: Some(UnitId(0x11)),
    };
    assert_eq!(dispatch::<Rtu>(&any, &UnitId(0)), (UnitId(0), Dispatch::Silent));
    assert_eq!(dispatch::<Rtu>(&only, &UnitId(0)), (UnitId(0), Dispatch::Silent));
    assert_eq!(dispatch::<Rtu>(&only, &UnitId(0x12)), (UnitId(0x12), Dispatch::Ignore));
    assert_eq!(dispatch::<Rtu>(&only, &UnitId(0x11)), (UnitId(0x11), Dispatch::Answer));
    assert_eq!(dispatch::<Ascii>(&any, &UnitId(0x12)), (UnitId(0x12), Dispatch::Answer));
    let tcp_zero = MbapHeader {
        transaction_id: TransactionId(3),
        unit_id: UnitId(0),
    };
    assert_eq!(dispatch::<Tcp>(&any, &tcp_zero), (UnitId(0), Dispatch::Answer));
}

#[test]
fn server_failures_end_or_continue_by_framing() {
    assert_eq!(
        receive_failure::<Tcp>(Error::Io {
            kind: std::io::ErrorKind::UnexpectedEof
        }),
        FailureAction::Close
    );
    assert_eq!(
        receive_failure::<Tcp>(Error::Malformed),
        FailureAction::ReportAndEnd(Error::Malformed)
    );
    assert_eq!(
        receive_failure::<Rtu>(Error::Malformed),
        FailureAction::ReportAndContinue(Error::Malformed)
    );
    assert_eq!(
        receive_failure::<Rtu>(Error::ConnectionClosed),
        FailureAction::ReportAndEnd(Error::ConnectionClosed)
    );
    assert_eq!(
        send_failure(Error::PduTooLarge { len: 254, max: 253 }),
        FailureAction::ReportAndContinue(Error::PduTooLarge { len: 254, max: 253 })
    );
    assert_eq!(
        send_failure(Error::ConnectionClosed),
        FailureAction::ReportAndEnd(Error::ConnectionClosed)
    );
    assert_eq!(
        response_for(FunctionCode::ReadCoils, Err(ExceptionCode::ServerDeviceBusy)),
        ResponsePdu::Exception(ExceptionResponse {
            function: FunctionCode::ReadCoils,
            exception: ExceptionCode::ServerDeviceBusy
        })
    );
    let answer = ResponsePdu::WriteSingleCoil {
        address: Address(1),
        value: true,
    };
    assert_eq!(response_for(FunctionCode::WriteSingleCoil, Ok(answer.clone())), answer);
}
