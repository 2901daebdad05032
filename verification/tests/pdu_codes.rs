use rust_modbus::frame::mei::{decode_request, decode_response, encode_request};
use rust_modbus::{
    mask_write_result, Address, DeviceIdObject, DiagnosticSubFunction, Error, ExceptionStatus,
    FileNumber, FileRecordRead, FileRecordReadResponse, FileRecordWrite, FunctionCode, Mask,
    MeiRequest, MeiResponse, Quantity, ReadDeviceIdCode, RecordLength, RecordNumber,
    RegisterValue, RequestPdu, ResponsePdu,
};

fn registers(values: &[u16]) -> Vec<RegisterValue> {
    values.iter().map(|v| RegisterValue(*v)).collect()
}

/// Decodes a request, checks it is `expected`, and that it re-encodes to the
/// same bytes.
fn request_round_trip(bytes: &[u8], expected: RequestPdu) {
    assert_eq!(RequestPdu::decode(bytes), Ok(expected.clone()), "request {bytes:02X?}");
    assert_eq!(expected.encode(), Ok(bytes.to_vec()), "request {bytes:02X?}");
}

/// The same for a response.
fn response_round_trip(bytes: &[u8], expected: ResponsePdu) {
    assert_eq!(ResponsePdu::decode(bytes), Ok(expected.clone()), "response {bytes:02X?}");
    assert_eq!(expected.encode(), Ok(bytes.to_vec()), "response {bytes:02X?}");
}

#[test]
fn read_exception_status_round_trips() {
    request_round_trip(&[0x07], RequestPdu::ReadExceptionStatus);
    response_round_trip(
        &[0x07, 0x6D],
        ResponsePdu::ReadExceptionStatus {
            status: ExceptionStatus(0x6D),
        },
    );
}

#[test]
fn diagnostics_round_trips() {
    request_round_trip(
        &[0x08, 0x00, 0x00, 0xA5, 0x37],
        RequestPdu::Diagnostics {
            sub_function: DiagnosticSubFunction::ReturnQueryData,
            data: vec![0xA537],
        },
    );
    response_round_trip(
        &[0x08, 0x00, 0x0B, 0x01, 0x02],
        ResponsePdu::Diagnostics {
            sub_function: DiagnosticSubFunction::ReturnBusMessageCount,
            data: vec![0x0102],
        },
    );
    // A reserved sub-function still decodes, carried as its raw code.
    assert_eq!(
        RequestPdu::decode(&[0x08, 0x00, 0x07, 0x00, 0x00]),
        Ok(RequestPdu::Diagnostics {
            sub_function: DiagnosticSubFunction::Other(7),
            data: vec![0],
        })
    );
    // A named code cannot be smuggled in as an unnamed one.
    assert_eq!(
        RequestPdu::Diagnostics {
            sub_function: DiagnosticSubFunction::Other(0),
            data: vec![],
        }
        .encode(),
        Err(Error::ReservedCode(0))
    );
}

#[test]
fn comm_event_counter_and_log_round_trip() {
    request_round_trip(&[0x0B], RequestPdu::GetCommEventCounter);
    response_round_trip(
        &[0x0B, 0xFF, 0xFF, 0x01, 0x08],
        ResponsePdu::GetCommEventCounter {
            status: 0xFFFF,
            event_count: 0x0108,
        },
    );
    request_round_trip(&[0x0C], RequestPdu::GetCommEventLog);
    response_round_trip(
        &[0x0C, 0x08, 0x00, 0x00, 0x01, 0x08, 0x01, 0x21, 0x20, 0x00],
        ResponsePdu::GetCommEventLog {
            status: 0x0000,
            event_count: 0x0108,
            message_count: 0x0121,
            events: vec![0x20, 0x00],
        },
    );
}

#[test]
fn write_multiple_round_trips() {
    let coils = vec![
        true, false, true, true, false, false, true, true, true, false,
    ];
    request_round_trip(
        &[0x0F, 0x00, 0x13, 0x00, 0x0A, 0x02, 0xCD, 0x01],
        RequestPdu::WriteMultipleCoils {
            address: Address(0x13),
            coils,
        },
    );
    response_round_trip(
        &[0x0F, 0x00, 0x13, 0x00, 0x0A],
        ResponsePdu::WriteMultipleCoils {
            address: Address(0x13),
            quantity: Quantity(10),
        },
    );
    request_round_trip(
        &[0x10, 0x00, 0x01, 0x00, 0x02, 0x04, 0x00, 0x0A, 0x01, 0x02],
        RequestPdu::WriteMultipleRegisters {
            address: Address(1),
            registers: registers(&[0x000A, 0x0102]),
        },
    );
    response_round_trip(
        &[0x10, 0x00, 0x01, 0x00, 0x02],
        ResponsePdu::WriteMultipleRegisters {
            address: Address(1),
            quantity: Quantity(2),
        },
    );
    // A byte count that disagrees with the quantity is refused.
    assert!(RequestPdu::decode(&[0x10, 0x00, 0x01, 0x00, 0x02, 0x02, 0x00, 0x0A]).is_err());
}

#[test]
fn report_server_id_round_trips() {
    request_round_trip(&[0x11], RequestPdu::ReportServerId);
    response_round_trip(
        &[0x11, 0x03, 0x01, 0xFF, 0x42],
        ResponsePdu::ReportServerId {
            data: vec![0x01, 0xFF, 0x42],
        },
    );
}

#[test]
fn file_records_round_trip() {
    request_round_trip(
        &[
            0x14, 0x0E, 0x06, 0x00, 0x04, 0x00, 0x01, 0x00, 0x02, 0x06, 0x00, 0x03, 0x00, 0x09,
            0x00, 0x02,
        ],
        RequestPdu::ReadFileRecord {
            records: vec![
                FileRecordRead {
                    file_number: FileNumber(4),
                    record_number: RecordNumber(1),
                    record_length: RecordLength(2),
                },
                FileRecordRead {
                    file_number: FileNumber(3),
                    record_number: RecordNumber(9),
                    record_length: RecordLength(2),
                },
            ],
        },
    );
    response_round_trip(
        &[
            0x14, 0x0C, 0x05, 0x06, 0x0D, 0xFE, 0x00, 0x20, 0x05, 0x06, 0x33, 0xCD, 0x00, 0x40,
        ],
        ResponsePdu::ReadFileRecord {
            records: vec![
                FileRecordReadResponse {
                    values: registers(&[0x0DFE, 0x0020]),
                },
                FileRecordReadResponse {
                    values: registers(&[0x33CD, 0x0040]),
                },
            ],
        },
    );
    let write = vec![FileRecordWrite {
        file_number: FileNumber(4),
        record_number: RecordNumber(7),
        values: registers(&[0x06AF, 0x04BE, 0x100D]),
    }];
    let bytes = [
        0x15, 0x0D, 0x06, 0x00, 0x04, 0x00, 0x07, 0x00, 0x03, 0x06, 0xAF, 0x04, 0xBE, 0x10, 0x0D,
    ];
    request_round_trip(
        &bytes,
        RequestPdu::WriteFileRecord {
            records: write.clone(),
        },
    );
    response_round_trip(&bytes, ResponsePdu::WriteFileRecord { records: write });
}

#[test]
fn file_record_errors() {
    // Reference type other than 6.
    assert_eq!(
        RequestPdu::decode(&[0x14, 0x07, 0x05, 0x00, 0x04, 0x00, 0x01, 0x00, 0x02]),
        Err(Error::ReferenceType(5))
    );
    // A record number above 9999 is out of range on encode.
    assert!(matches!(
        RequestPdu::ReadFileRecord {
            records: vec![FileRecordRead {
                file_number: FileNumber(1),
                record_number: RecordNumber(10_000),
                record_length: RecordLength(1),
            }],
        }
        .encode(),
        Err(Error::OutOfRange { .. })
    ));
}

#[test]
fn mask_write_register_round_trips_and_computes() {
    let bytes = [0x16, 0x00, 0x04, 0x00, 0xF2, 0x00, 0x25];
    request_round_trip(
        &bytes,
        RequestPdu::MaskWriteRegister {
            address: Address(4),
            and_mask: Mask(0x00F2),
            or_mask: Mask(0x0025),
        },
    );
    response_round_trip(
        &bytes,
        ResponsePdu::MaskWriteRegister {
            address: Address(4),
            and_mask: Mask(0x00F2),
            or_mask: Mask(0x0025),
        },
    );
    assert_eq!(
        mask_write_result(RegisterValue(0x0012), Mask(0x00F2), Mask(0x0025)),
        RegisterValue(0x0017)
    );
    assert_eq!(
        mask_write_result(RegisterValue(0xABCD), Mask(0xFFFF), Mask(0x1234)),
        RegisterValue(0xABCD)
    );
    assert_eq!(
        mask_write_result(RegisterValue(0xABCD), Mask(0x0000), Mask(0x1234)),
        RegisterValue(0x1234)
    );
}

#[test]
fn read_write_multiple_and_fifo_round_trip() {
    request_round_trip(
        &[
            0x17, 0x00, 0x03, 0x00, 0x06, 0x00, 0x0E, 0x00, 0x03, 0x06, 0x00, 0xFF, 0x00, 0xFF,
            0x00, 0xFF,
        ],
        RequestPdu::ReadWriteMultipleRegisters {
            read_address: Address(3),
            read_quantity: Quantity(6),
            write_address: Address(0x0E),
            registers: registers(&[0x00FF, 0x00FF, 0x00FF]),
        },
    );
    response_round_trip(
        &[
            0x17, 0x0C, 0x00, 0xFE, 0x0A, 0xCD, 0x00, 0x01, 0x00, 0x03, 0x00, 0x0D, 0x00, 0xFF,
        ],
        ResponsePdu::ReadWriteMultipleRegisters {
            registers: registers(&[0x00FE, 0x0ACD, 0x0001, 0x0003, 0x000D, 0x00FF]),
        },
    );
    request_round_trip(
        &[0x18, 0x04, 0xDE],
        RequestPdu::ReadFifoQueue {
            address: Address(0x04DE),
        },
    );
    response_round_trip(
        &[0x18, 0x00, 0x06, 0x00, 0x02, 0x01, 0xB8, 0x12, 0x84],
        ResponsePdu::ReadFifoQueue {
            values: registers(&[0x01B8, 0x1284]),
        },
    );
}

#[test]
fn custom_function_codes_are_carried_whole() {
    request_round_trip(
        &[0x41, 0x01, 0x02, 0x03],
        RequestPdu::Custom {
            code: 0x41,
            data: vec![0x01, 0x02, 0x03],
        },
    );
    response_round_trip(&[0x64], ResponsePdu::Custom { code: 0x64, data: vec![] });
    // A named code cannot be sent as a custom one.
    assert_eq!(
        RequestPdu::Custom {
            code: 0x03,
            data: vec![]
        }
        .encode(),
        Err(Error::ReservedCode(0x03))
    );
    // Zero and 128 and above are no function at all.
    assert_eq!(RequestPdu::decode(&[0x00]), Err(Error::InvalidFunctionCode(0)));
    assert_eq!(FunctionCode::decode(0x80), Err(Error::InvalidFunctionCode(0x80)));
    assert_eq!(RequestPdu::decode(&[]), Err(Error::Truncated { expected: 1, supplied: 0 }));
}

#[test]
fn encapsulated_interface_transport_round_trips() {
    request_round_trip(
        &[0x2B, 0x0E, 0x01, 0x00],
        RequestPdu::EncapsulatedInterfaceTransport(MeiRequest::ReadDeviceIdentification {
            read_device_id_code: ReadDeviceIdCode::Basic,
            object_id: 0,
        }),
    );
    response_round_trip(
        &[0x2B, 0x0E, 0x01, 0x01, 0x00, 0x00, 0x02, 0x00, 0x02, 0x41, 0x42, 0x01, 0x01, 0x43],
        ResponsePdu::EncapsulatedInterfaceTransport(MeiResponse::ReadDeviceIdentification {
            read_device_id_code: ReadDeviceIdCode::Basic,
            conformity_level: 0x01,
            more_follows: false,
            next_object_id: 0,
            objects: vec![
                DeviceIdObject {
                    id: 0,
                    value: vec![0x41, 0x42],
                },
                DeviceIdObject {
                    id: 1,
                    value: vec![0x43],
                },
            ],
        }),
    );
    request_round_trip(
        &[0x2B, 0x0D, 0x09, 0x08],
        RequestPdu::EncapsulatedInterfaceTransport(MeiRequest::CanOpen {
            data: vec![0x09, 0x08],
        }),
    );
    request_round_trip(
        &[0x2B, 0x22, 0x01],
        RequestPdu::EncapsulatedInterfaceTransport(MeiRequest::Other {
            mei_type: 0x22,
            data: vec![0x01],
        }),
    );
    // The body functions on their own.
    let mut body = vec![0x2B];
    encode_request(
        &MeiRequest::ReadDeviceIdentification {
            read_device_id_code: ReadDeviceIdCode::Individual,
            object_id: 5,
        },
        &mut body,
    );
    assert_eq!(body, vec![0x2B, 0x0E, 0x04, 0x05]);
    assert_eq!(
        decode_request(&body),
        Ok(MeiRequest::ReadDeviceIdentification {
            read_device_id_code: ReadDeviceIdCode::Individual,
            object_id: 5,
        })
    );
    assert_eq!(
        decode_response(&[0x2B, 0x0D, 0x07]),
        Ok(MeiResponse::CanOpen { data: vec![0x07] })
    );
    // A read device id code outside 1-4 is out of range.
    assert_eq!(
        ReadDeviceIdCode::decode(5),
        Err(Error::OutOfRange {
            field: "read device id code",
            value: 5,
            min: 1,
            max: 4
        })
    );
}

#[test]
fn every_pdu_error_variant_has_an_input() {
    // InvalidLength: an exception response is exactly two bytes.
    assert!(matches!(
        ResponsePdu::decode(&[0x83, 0x02, 0x00]),
        Err(Error::TrailingBytes { .. }) | Err(Error::InvalidLength { .. })
    ));
    // ByteCountMismatch on a bit response whose count disagrees with data.
    assert_eq!(
        ResponsePdu::decode(&[0x02, 0x02, 0xFF]),
        Err(Error::ByteCountMismatch {
            expected: 2,
            actual: 1
        })
    );
    // A FIFO response longer than 31 values is out of range.
    let mut fifo = vec![0x18u8, 0x00, 0x42, 0x00, 0x20];
    fifo.extend(std::iter::repeat(0u8).take(64));
    assert!(matches!(
        ResponsePdu::decode(&fifo),
        Err(Error::OutOfRange { .. })
    ));
}

#[test]
fn pdus_longer_than_the_maximum_never_decode() {
    let mut custom = vec![0x41u8];
    custom.extend(std::iter::repeat(0u8).take(299));
    assert_eq!(
        RequestPdu::decode(&custom),
        Err(Error::PduTooLarge { len: 300, max: 253 })
    );
    let mut coils = vec![0x01u8, 0xFF];
    coils.extend(std::iter::repeat(0u8).take(255));
    assert_eq!(
        ResponsePdu::decode(&coils),
        Err(Error::PduTooLarge { len: 257, max: 253 })
    );
    // At the maximum a custom PDU still decodes and re-encodes identically.
    let mut largest = vec![0x41u8];
    largest.extend(std::iter::repeat(7u8).take(252));
    let decoded = RequestPdu::decode(&largest).expect("253 bytes decode");
    assert_eq!(decoded.encode(), Ok(largest));
}
