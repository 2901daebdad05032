use rust_modbus::frame::mei::{encode_response, MEI_READ_DEVICE_ID};
use rust_modbus::{
    Address, DeviceIdObject, Error, ExceptionCode, ExceptionResponse, FunctionCode, MeiResponse,
    Quantity, ReadDeviceIdCode, RegisterValue, RequestPdu, ResponsePdu, MAX_PDU_LEN,
};

/// Coil states of a Read Coils response carrying the bytes `CD 6B 05`,
/// least significant bit first.
fn example_coils() -> Vec<bool> {
    [0xCDu8, 0x6B, 0x05]
        .iter()
        .flat_map(|byte| (0..8).map(move |bit| byte & (1 << bit) != 0))
        .collect()
}

fn registers(values: &[u16]) -> Vec<RegisterValue> {
    values.iter().map(|v| RegisterValue(*v)).collect()
}

#[test]
fn ut_read_coils_request_bytes() {
    let request = RequestPdu::ReadCoils {
        address: Address(19),
        quantity: Quantity(19),
    };
    let bytes = vec![0x01, 0x00, 0x13, 0x00, 0x13];
    assert_eq!(request.encode(), Ok(bytes.clone()));
    assert_eq!(RequestPdu::decode(&bytes), Ok(request));
}

#[test]
fn ut_read_coils_response_bit_packing() {
    let bytes = vec![0x01, 0x03, 0xCD, 0x6B, 0x05];
    let response = ResponsePdu::ReadCoils {
        coils: example_coils(),
    };
    assert_eq!(ResponsePdu::decode(&bytes), Ok(response.clone()));
    assert_eq!(response.encode(), Ok(bytes));

    let coils = example_coils();
    assert_eq!(coils.first(), Some(&true));
    assert_eq!(coils.get(1), Some(&false));
}

#[test]
fn ut_bit_response_yields_byte_count_times_eight() {
    let decoded = ResponsePdu::decode(&[0x01, 0x03, 0xCD, 0x6B, 0x05]);
    let ResponsePdu::ReadCoils { coils } = decoded.expect("valid response") else {
        panic!("expected a Read Coils response");
    };
    assert_eq!(coils.len(), 24);
}

#[test]
fn ut_read_discrete_inputs_spec_example() {
    let request = RequestPdu::ReadDiscreteInputs {
        address: Address(196),
        quantity: Quantity(22),
    };
    let request_bytes = vec![0x02, 0x00, 0xC4, 0x00, 0x16];
    assert_eq!(request.encode(), Ok(request_bytes.clone()));
    assert_eq!(RequestPdu::decode(&request_bytes), Ok(request));

    let response_bytes = vec![0x02, 0x03, 0xAC, 0xDB, 0x35];
    let decoded = ResponsePdu::decode(&response_bytes).expect("valid response");
    assert_eq!(decoded.encode(), Ok(response_bytes));
}

#[test]
fn ut_read_holding_registers_spec_example() {
    let request = RequestPdu::ReadHoldingRegisters {
        address: Address(107),
        quantity: Quantity(3),
    };
    let request_bytes = vec![0x03, 0x00, 0x6B, 0x00, 0x03];
    assert_eq!(request.encode(), Ok(request_bytes.clone()));
    assert_eq!(RequestPdu::decode(&request_bytes), Ok(request));

    let response = ResponsePdu::ReadHoldingRegisters {
        registers: registers(&[0x022B, 0x0000, 0x0064]),
    };
    let response_bytes = vec![0x03, 0x06, 0x02, 0x2B, 0x00, 0x00, 0x00, 0x64];
    assert_eq!(response.encode(), Ok(response_bytes.clone()));
    assert_eq!(ResponsePdu::decode(&response_bytes), Ok(response));
}

#[test]
fn ut_read_input_registers_spec_example() {
    let request = RequestPdu::ReadInputRegisters {
        address: Address(8),
        quantity: Quantity(1),
    };
    let request_bytes = vec![0x04, 0x00, 0x08, 0x00, 0x01];
    assert_eq!(request.encode(), Ok(request_bytes.clone()));
    assert_eq!(RequestPdu::decode(&request_bytes), Ok(request));

    let response = ResponsePdu::ReadInputRegisters {
        registers: registers(&[0x000A]),
    };
    let response_bytes = vec![0x04, 0x02, 0x00, 0x0A];
    assert_eq!(response.encode(), Ok(response_bytes.clone()));
    assert_eq!(ResponsePdu::decode(&response_bytes), Ok(response));
}

#[test]
fn ut_write_single_coil_spec_example() {
    let request = RequestPdu::WriteSingleCoil {
        address: Address(172),
        value: true,
    };
    let bytes = vec![0x05, 0x00, 0xAC, 0xFF, 0x00];
    assert_eq!(request.encode(), Ok(bytes.clone()));
    assert_eq!(RequestPdu::decode(&bytes), Ok(request));

    let response = ResponsePdu::WriteSingleCoil {
        address: Address(172),
        value: true,
    };
    assert_eq!(response.encode(), Ok(bytes.clone()));
    assert_eq!(ResponsePdu::decode(&bytes), Ok(response));
}

#[test]
fn ut_write_single_coil_off() {
    let request = RequestPdu::WriteSingleCoil {
        address: Address(172),
        value: false,
    };
    let bytes = vec![0x05, 0x00, 0xAC, 0x00, 0x00];
    assert_eq!(request.encode(), Ok(bytes.clone()));
    assert_eq!(RequestPdu::decode(&bytes), Ok(request));
}

#[test]
fn ut_write_single_coil_value_illegal() {
    for value in [0x0001u16, 0x00FF, 0xFF01, 0xFFFF] {
        let [hi, lo] = value.to_be_bytes();
        let expected = Error::IllegalValue {
            field: "coil value",
            value,
        };
        assert_eq!(
            RequestPdu::decode(&[0x05, 0x00, 0xAC, hi, lo]),
            Err(expected.clone()),
            "request value {value:#06x}"
        );
        assert_eq!(
            ResponsePdu::decode(&[0x05, 0x00, 0xAC, hi, lo]),
            Err(expected),
            "response value {value:#06x}"
        );
    }
}

#[test]
fn ut_write_single_register_spec_example() {
    let request = RequestPdu::WriteSingleRegister {
        address: Address(1),
        value: RegisterValue(3),
    };
    let bytes = vec![0x06, 0x00, 0x01, 0x00, 0x03];
    assert_eq!(request.encode(), Ok(bytes.clone()));
    assert_eq!(RequestPdu::decode(&bytes), Ok(request));

    for value in [0x0000u16, 0x00FF, 0xFF00, 0xFFFF] {
        let [hi, lo] = value.to_be_bytes();
        assert_eq!(
            RequestPdu::decode(&[0x06, 0x00, 0x01, hi, lo]),
            Ok(RequestPdu::WriteSingleRegister {
                address: Address(1),
                value: RegisterValue(value)
            }),
            "value {value:#06x}"
        );
    }
}

#[test]
fn ut_coil_quantity_out_of_range() {
    for quantity in [0u16, 2001, 65535] {
        let expected = Error::OutOfRange {
            field: "quantity",
            value: u32::from(quantity),
            min: 1,
            max: 2000,
        };
        assert_eq!(
            RequestPdu::ReadCoils {
                address: Address(0),
                quantity: Quantity(quantity)
            }
            .encode(),
            Err(expected.clone()),
            "quantity {quantity}"
        );
        let [hi, lo] = quantity.to_be_bytes();
        assert_eq!(
            RequestPdu::decode(&[0x01, 0x00, 0x00, hi, lo]),
            Err(expected),
            "decoding quantity {quantity}"
        );
    }
}

#[test]
fn ut_register_quantity_out_of_range() {
    for quantity in [0u16, 126, 2000] {
        let expected = Error::OutOfRange {
            field: "quantity",
            value: u32::from(quantity),
            min: 1,
            max: 125,
        };
        assert_eq!(
            RequestPdu::ReadHoldingRegisters {
                address: Address(0),
                quantity: Quantity(quantity)
            }
            .encode(),
            Err(expected.clone()),
            "quantity {quantity}"
        );
        let [hi, lo] = quantity.to_be_bytes();
        assert_eq!(
            RequestPdu::decode(&[0x03, 0x00, 0x00, hi, lo]),
            Err(expected),
            "decoding quantity {quantity}"
        );
    }
}

#[test]
fn ut_byte_count_mismatch() {
    assert_eq!(
        ResponsePdu::decode(&[0x03, 0x06, 0x02, 0x2B, 0x00, 0x00]),
        Err(Error::ByteCountMismatch {
            expected: 6,
            actual: 4,
        })
    );
    assert_eq!(
        ResponsePdu::decode(&[0x01, 0x03, 0xCD, 0x6B]),
        Err(Error::ByteCountMismatch {
            expected: 3,
            actual: 2,
        })
    );
}

#[test]
fn ut_register_response_byte_count_must_be_even() {
    assert_eq!(
        ResponsePdu::decode(&[0x03, 0x03, 0x02, 0x2B, 0x00]),
        Err(Error::IllegalValue {
            field: "byte count",
            value: 3,
        })
    );
}

#[test]
fn ut_pdu_exceeding_max_is_rejected() {
    // 126 registers would need 1 + 1 + 252 = 254 bytes.
    let response = ResponsePdu::ReadHoldingRegisters {
        registers: vec![RegisterValue(0); 126],
    };
    assert_eq!(
        response.encode(),
        Err(Error::PduTooLarge {
            len: 254,
            max: MAX_PDU_LEN,
        })
    );
}

#[test]
fn ut_max_size_pdu_is_accepted() {
    let response = ResponsePdu::ReadHoldingRegisters {
        registers: vec![RegisterValue(0); 125],
    };
    let bytes = response.encode().expect("125 registers fit");
    assert_eq!(bytes.len(), 252);
}

#[test]
fn ut_truncated_request_is_reported() {
    assert_eq!(
        RequestPdu::decode(&[0x01, 0x00, 0x13, 0x00]),
        Err(Error::Truncated {
            expected: 5,
            supplied: 4,
        })
    );
}

#[test]
fn ut_trailing_bytes_are_rejected() {
    assert_eq!(
        RequestPdu::decode(&[0x01, 0x00, 0x13, 0x00, 0x13, 0xFF]),
        Err(Error::TrailingBytes { extra: 1 })
    );
}

#[test]
fn ut_response_decodes_exception() {
    assert_eq!(
        ResponsePdu::decode(&[0x83, 0x02]),
        Ok(ResponsePdu::Exception(ExceptionResponse {
            function: FunctionCode::ReadHoldingRegisters,
            exception: ExceptionCode::IllegalDataAddress,
        }))
    );
    assert_eq!(
        ResponsePdu::decode(&[0x80 | 100, 0x0B]),
        Ok(ResponsePdu::Exception(ExceptionResponse {
            function: FunctionCode::Custom(100),
            exception: ExceptionCode::GatewayTargetDeviceFailedToRespond,
        }))
    );
}

#[test]
fn ut_round_trips() {
    let requests: Vec<Vec<u8>> = vec![
        vec![0x01, 0x00, 0x13, 0x00, 0x13],
        vec![0x02, 0x00, 0xC4, 0x00, 0x16],
        vec![0x03, 0x00, 0x6B, 0x00, 0x03],
        vec![0x04, 0x00, 0x08, 0x00, 0x01],
        vec![0x05, 0x00, 0xAC, 0xFF, 0x00],
        vec![0x05, 0x00, 0xAC, 0x00, 0x00],
        vec![0x06, 0x00, 0x01, 0x00, 0x03],
    ];
    for bytes in requests {
        let decoded = RequestPdu::decode(&bytes).expect("valid request");
        assert_eq!(decoded.encode(), Ok(bytes.clone()), "request {bytes:?}");
    }

    let responses: Vec<Vec<u8>> = vec![
        vec![0x01, 0x03, 0xCD, 0x6B, 0x05],
        vec![0x02, 0x03, 0xAC, 0xDB, 0x35],
        vec![0x03, 0x06, 0x02, 0x2B, 0x00, 0x00, 0x00, 0x64],
        vec![0x04, 0x02, 0x00, 0x0A],
        vec![0x05, 0x00, 0xAC, 0xFF, 0x00],
        vec![0x06, 0x00, 0x01, 0x00, 0x03],
        vec![0x83, 0x02],
    ];
    for bytes in responses {
        let decoded = ResponsePdu::decode(&bytes).expect("valid response");
        assert_eq!(decoded.encode(), Ok(bytes.clone()), "response {bytes:?}");
    }
}

/// A Read Device Identification response carrying `objects`: basic
/// conformity, no continuation.
fn device_id_response(objects: Vec<DeviceIdObject>) -> MeiResponse {
    MeiResponse::ReadDeviceIdentification {
        read_device_id_code: ReadDeviceIdCode::Basic,
        conformity_level: 0x01,
        more_follows: false,
        next_object_id: 0x00,
        objects,
    }
}

fn encode_mei_response(response: &MeiResponse) -> Result<Vec<u8>, Error> {
    let mut out = Vec::new();
    encode_response(response, &mut out)?;
    Ok(out)
}

#[test]
fn ut_device_id_response_object_count_above_255_rejected() {
    let objects = (0..256u32)
        .map(|index| DeviceIdObject {
            id: u8::try_from(index % 256).expect("a byte"),
            value: vec![],
        })
        .collect();

    assert_eq!(
        encode_mei_response(&device_id_response(objects)),
        Err(Error::OutOfRange {
            field: "object count",
            value: 256,
            min: 0,
            max: 255,
        })
    );
}

#[test]
fn ut_device_id_response_object_value_above_255_bytes_rejected() {
    let too_long = device_id_response(vec![DeviceIdObject {
        id: 0x00,
        value: vec![0x41; 256],
    }]);
    assert_eq!(
        encode_mei_response(&too_long),
        Err(Error::OutOfRange {
            field: "object length",
            value: 256,
            min: 0,
            max: 255,
        })
    );

    let at_limit = device_id_response(vec![DeviceIdObject {
        id: 0x00,
        value: vec![0x41; 255],
    }]);
    let encoded = encode_mei_response(&at_limit).expect("255 bytes fit the length byte");
    assert_eq!(
        encoded.get(..8),
        Some([MEI_READ_DEVICE_ID, 0x01, 0x01, 0x00, 0x00, 0x01, 0x00, 0xFF].as_slice()),
        "header, one object, its id and its 0xFF length"
    );
    assert_eq!(encoded.len(), 6 + 2 + 255);
}
