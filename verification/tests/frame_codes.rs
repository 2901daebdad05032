use rust_modbus::{
    Address, Error, ExceptionCode, ExceptionResponse, FunctionCode, Quantity, UnitId,
};

/// Every named function code, in wire order.
const NAMED_FUNCTIONS: [(u8, FunctionCode); 19] = [
    (1, FunctionCode::ReadCoils),
    (2, FunctionCode::ReadDiscreteInputs),
    (3, FunctionCode::ReadHoldingRegisters),
    (4, FunctionCode::ReadInputRegisters),
    (5, FunctionCode::WriteSingleCoil),
    (6, FunctionCode::WriteSingleRegister),
    (7, FunctionCode::ReadExceptionStatus),
    (8, FunctionCode::Diagnostics),
    (11, FunctionCode::GetCommEventCounter),
    (12, FunctionCode::GetCommEventLog),
    (15, FunctionCode::WriteMultipleCoils),
    (16, FunctionCode::WriteMultipleRegisters),
    (17, FunctionCode::ReportServerId),
    (20, FunctionCode::ReadFileRecord),
    (21, FunctionCode::WriteFileRecord),
    (22, FunctionCode::MaskWriteRegister),
    (23, FunctionCode::ReadWriteMultipleRegisters),
    (24, FunctionCode::ReadFifoQueue),
    (43, FunctionCode::EncapsulatedInterfaceTransport),
];

/// Every named exception code, in wire order.
const NAMED_EXCEPTIONS: [(u8, ExceptionCode); 9] = [
    (1, ExceptionCode::IllegalFunction),
    (2, ExceptionCode::IllegalDataAddress),
    (3, ExceptionCode::IllegalDataValue),
    (4, ExceptionCode::ServerDeviceFailure),
    (5, ExceptionCode::Acknowledge),
    (6, ExceptionCode::ServerDeviceBusy),
    (8, ExceptionCode::MemoryParityError),
    (10, ExceptionCode::GatewayPathUnavailable),
    (11, ExceptionCode::GatewayTargetDeviceFailedToRespond),
];

#[test]
fn ut_values_are_transparent() {
    assert_eq!(UnitId::from(0x11).0, 0x11);
    assert_eq!(u8::from(UnitId(0x11)), 0x11);
    assert_eq!(Address::from(0x006B).0, 0x006B);
    assert_eq!(u16::from(Quantity(3)), 3);
}

#[test]
fn ut_values_impose_no_validation() {
    assert_eq!(UnitId(250).0, 250);
    assert_eq!(UnitId(u8::MAX).0, u8::MAX);
    assert_eq!(Quantity(u16::MAX).0, u16::MAX);
    assert_eq!(Address(u16::MAX).0, u16::MAX);
}

#[test]
fn ut_values_display_bare() {
    assert_eq!(UnitId(17).to_string(), "17");
    assert_eq!(format!("{:?}", UnitId(17)), "UnitId(17)");
}

#[test]
fn ut_all_nineteen_public_codes_named() {
    assert_eq!(NAMED_FUNCTIONS.len(), 19);
    for (byte, code) in NAMED_FUNCTIONS {
        assert_eq!(FunctionCode::decode(byte), Ok(code), "decoding {byte}");
        assert_eq!(code.encode(), Ok(byte), "encoding {code:?}");
    }
}

#[test]
fn ut_unnamed_code_becomes_custom() {
    for byte in [9, 10, 13, 14, 18, 19, 25, 42, 44, 65, 72, 100, 110, 127] {
        assert_eq!(
            FunctionCode::decode(byte),
            Ok(FunctionCode::Custom(byte)),
            "decoding {byte}"
        );
    }
}

#[test]
fn ut_every_code_in_range_decodes_once() {
    for byte in 1..=127u8 {
        let decoded = FunctionCode::decode(byte).expect("1..=127 is always valid");
        let named = NAMED_FUNCTIONS.iter().any(|(b, _)| *b == byte);
        assert_eq!(
            matches!(decoded, FunctionCode::Custom(_)),
            !named,
            "byte {byte} disagrees with the named table"
        );
    }
}

#[test]
fn ut_custom_with_named_code_is_reserved_error() {
    for (byte, _) in NAMED_FUNCTIONS {
        assert_eq!(
            FunctionCode::Custom(byte).encode(),
            Err(Error::ReservedCode(byte)),
            "custom holding {byte}"
        );
    }
}

#[test]
fn ut_code_zero_is_invalid() {
    assert_eq!(FunctionCode::decode(0), Err(Error::InvalidFunctionCode(0)));
    assert_eq!(
        FunctionCode::Custom(0).encode(),
        Err(Error::InvalidFunctionCode(0))
    );
}

#[test]
fn ut_codes_above_127_invalid_as_request() {
    for byte in [128, 129, 131, 200, 255] {
        assert_eq!(
            FunctionCode::decode(byte),
            Err(Error::InvalidFunctionCode(byte)),
            "decoding {byte}"
        );
        assert_eq!(
            FunctionCode::Custom(byte).encode(),
            Err(Error::InvalidFunctionCode(byte)),
            "encoding custom {byte}"
        );
    }
}

#[test]
fn ut_function_code_round_trips() {
    for byte in 1..=127u8 {
        let code = FunctionCode::decode(byte).expect("1..=127 is always valid");
        assert_eq!(code.encode(), Ok(byte), "round-tripping {byte}");
    }
}

fn response(function: FunctionCode, exception: ExceptionCode) -> ExceptionResponse {
    ExceptionResponse {
        function,
        exception,
    }
}

#[test]
fn ut_exception_sets_high_bit() {
    let pdu = response(
        FunctionCode::ReadHoldingRegisters,
        ExceptionCode::IllegalDataAddress,
    )
    .encode()
    .expect("named codes encode");
    assert_eq!(pdu, vec![0x83, 0x02]);
}

#[test]
fn ut_decode_reports_original_function_code() {
    assert_eq!(
        ExceptionResponse::decode(&[0x83, 0x02]),
        Ok(response(
            FunctionCode::ReadHoldingRegisters,
            ExceptionCode::IllegalDataAddress
        ))
    );
}

#[test]
fn ut_all_nine_exception_codes_named() {
    assert_eq!(NAMED_EXCEPTIONS.len(), 9);
    for (byte, code) in NAMED_EXCEPTIONS {
        assert_eq!(ExceptionCode::decode(byte), code, "decoding {byte}");
        assert_eq!(code.encode(), Ok(byte), "encoding {code:?}");
    }
}

#[test]
fn ut_unknown_exception_code_wrapped() {
    for byte in [0, 7, 9, 12, 13, 100, 255] {
        assert_eq!(
            ExceptionCode::decode(byte),
            ExceptionCode::Other(byte),
            "decoding {byte}"
        );
    }
}

#[test]
fn ut_every_exception_byte_decodes() {
    for byte in 0..=255u8 {
        let decoded = ExceptionCode::decode(byte);
        let named = NAMED_EXCEPTIONS.iter().any(|(b, _)| *b == byte);
        assert_eq!(
            matches!(decoded, ExceptionCode::Other(_)),
            !named,
            "byte {byte} disagrees with the named table"
        );
    }
}

#[test]
fn ut_other_holding_named_code_is_reserved_error() {
    for (byte, _) in NAMED_EXCEPTIONS {
        assert_eq!(
            ExceptionCode::Other(byte).encode(),
            Err(Error::ReservedCode(byte)),
            "other holding {byte}"
        );
    }
}

#[test]
fn ut_exception_length_not_two_errors() {
    for pdu in [
        [].as_slice(),
        &[0x83],
        &[0x83, 0x02, 0x00],
        &[0x83, 0x02, 0x00, 0x00],
    ] {
        assert_eq!(
            ExceptionResponse::decode(pdu),
            Err(Error::InvalidLength {
                expected: 2,
                actual: pdu.len(),
            }),
            "pdu {pdu:?}"
        );
    }
}

#[test]
fn ut_exception_for_custom_function_code() {
    let decoded = ExceptionResponse::decode(&[0x80 | 100, 0x0B]);
    assert_eq!(
        decoded,
        Ok(response(
            FunctionCode::Custom(100),
            ExceptionCode::GatewayTargetDeviceFailedToRespond
        ))
    );
    assert_eq!(
        decoded.and_then(ExceptionResponse::encode),
        Ok(vec![0xE4, 0x0B])
    );
}

#[test]
fn ut_exception_on_function_zero_is_invalid() {
    assert_eq!(
        ExceptionResponse::decode(&[0x80, 0x01]),
        Err(Error::InvalidFunctionCode(0))
    );
}

#[test]
fn ut_exception_requires_high_bit() {
    assert_eq!(
        ExceptionResponse::decode(&[0x03, 0x02]),
        Err(Error::InvalidFunctionCode(0x03))
    );
}

#[test]
fn ut_exception_round_trips() {
    for function in 1..=127u8 {
        for exception in [0u8, 1, 6, 11, 200, 255] {
            let pdu = [function | 0x80, exception];
            let decoded = ExceptionResponse::decode(&pdu).expect("valid exception pdu");
            assert_eq!(decoded.encode(), Ok(pdu.to_vec()), "round-tripping {pdu:?}");
        }
    }
}

#[test]
fn ut_exception_code_display_names_every_named_code() {
    let expected = [
        (ExceptionCode::IllegalFunction, "Illegal Function"),
        (ExceptionCode::IllegalDataAddress, "Illegal Data Address"),
        (ExceptionCode::IllegalDataValue, "Illegal Data Value"),
        (ExceptionCode::ServerDeviceFailure, "Server Device Failure"),
        (ExceptionCode::Acknowledge, "Acknowledge"),
        (ExceptionCode::ServerDeviceBusy, "Server Device Busy"),
        (ExceptionCode::MemoryParityError, "Memory Parity Error"),
        (
            ExceptionCode::GatewayPathUnavailable,
            "Gateway Path Unavailable",
        ),
        (
            ExceptionCode::GatewayTargetDeviceFailedToRespond,
            "Gateway Target Device Failed To Respond",
        ),
    ];
    assert_eq!(expected.len(), 9, "all nine named codes are covered");
    for (code, name) in expected {
        assert_eq!(code.to_string(), name);
    }
}

#[test]
fn ut_exception_code_display_other() {
    assert_eq!(ExceptionCode::Other(0x7F).to_string(), "Other exception 127");
}
