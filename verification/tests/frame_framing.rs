use rust_modbus::frame::rtu::derive_extent;
use rust_modbus::{
    Address, AduBoundary, Ascii, Direction, Error, ExceptionCode, ExceptionResponse, Extent,
    Framing, FunctionCode, MbapHeader, Quantity, RegisterValue, RequestPdu, ResponsePdu, Rtu,
    RtuOverTcp, Tcp, TransactionId, UnitId,
};

// ---------------------------------------------------------------- framing

/// A request every framing encodes without complaint.
fn request() -> RequestPdu {
    RequestPdu::ReadHoldingRegisters {
        address: Address(0x006B),
        quantity: Quantity(3),
    }
}

/// A request no framing can encode: 124 registers exceeds the 123 a Write
/// Multiple Registers request may carry.
fn unencodable() -> RequestPdu {
    RequestPdu::WriteMultipleRegisters {
        address: Address(0),
        registers: vec![RegisterValue(0); 124],
    }
}

/// A response every framing encodes without complaint.
fn response() -> ResponsePdu {
    ResponsePdu::ReadHoldingRegisters {
        registers: vec![RegisterValue(0x022B)],
    }
}

/// The appending encode appends what the allocating one returns, reserves the
/// framing maximum first, and restores the buffer when it fails.
fn appending_encode_holds<F: Framing>(header: &F::Header) {
    let allocating = F::encode_request(header, &request()).expect("encodes");

    let mut out = vec![0xAA, 0xBB];
    F::encode_request_into(header, &request(), &mut out).expect("encodes");
    assert_eq!(out.first(), Some(&0xAA));
    assert_eq!(out.get(1), Some(&0xBB));
    assert_eq!(out.get(2..), Some(allocating.as_slice()));

    let allocating = F::encode_response(header, &response()).expect("encodes");
    let mut out = Vec::new();
    F::encode_response_into(header, &response(), &mut out).expect("encodes");
    assert_eq!(out, allocating);

    let mut out = Vec::new();
    F::encode_request_into(header, &request(), &mut out).expect("encodes");
    assert!(
        out.capacity() >= F::MAX_ADU_LEN,
        "reserved {} of {}",
        out.capacity(),
        F::MAX_ADU_LEN
    );

    let mut out = vec![0x01, 0x02, 0x03];
    F::encode_request_into(header, &unencodable(), &mut out).expect_err("rejects");
    assert_eq!(out, vec![0x01, 0x02, 0x03]);
}

#[test]
fn ut_boundary_self_locating_by_framing() {
    assert!(Rtu::boundary().is_self_locating());
    assert!(Ascii::boundary().is_self_locating());
    assert!(!Tcp::boundary().is_self_locating());
}

#[test]
fn ut_rtu_appending_encode() {
    appending_encode_holds::<Rtu>(&UnitId(0x11));
}

#[test]
fn ut_tcp_appending_encode() {
    appending_encode_holds::<Tcp>(&MbapHeader {
        transaction_id: TransactionId(0x0001),
        unit_id: UnitId(0x11),
    });
}

#[test]
fn ut_ascii_appending_encode() {
    appending_encode_holds::<Ascii>(&UnitId(0x11));
}

// ---------------------------------------------------------------- TCP

/// A Read Holding Registers request to unit `0x11`, transaction 1.
const TCP_READ_HOLDING_REQUEST: [u8; 12] = [
    0x00, 0x01, 0x00, 0x00, 0x00, 0x06, 0x11, 0x03, 0x00, 0x6B, 0x00, 0x03,
];

fn mbap_header() -> MbapHeader {
    MbapHeader {
        transaction_id: TransactionId(0x0001),
        unit_id: UnitId(0x11),
    }
}

#[test]
fn ut_tcp_request_spec_example() {
    let pdu = RequestPdu::ReadHoldingRegisters {
        address: Address(0x006B),
        quantity: Quantity(3),
    };
    assert_eq!(
        Tcp::decode_request(&TCP_READ_HOLDING_REQUEST),
        Ok((mbap_header(), pdu.clone()))
    );
    assert_eq!(
        Tcp::encode_request(&mbap_header(), &pdu),
        Ok(TCP_READ_HOLDING_REQUEST.to_vec())
    );
}

#[test]
fn ut_tcp_response_length_is_derived() {
    let pdu = ResponsePdu::ReadHoldingRegisters {
        registers: vec![
            RegisterValue(0x022B),
            RegisterValue(0x0000),
            RegisterValue(0x0064),
        ],
    };
    let bytes = [
        0x00, 0x01, 0x00, 0x00, 0x00, 0x09, 0x11, 0x03, 0x06, 0x02, 0x2B, 0x00, 0x00, 0x00, 0x64,
    ];
    assert_eq!(Tcp::decode_response(&bytes), Ok((mbap_header(), pdu.clone())));
    assert_eq!(Tcp::encode_response(&mbap_header(), &pdu), Ok(bytes.to_vec()));
}

#[test]
fn ut_mbap_protocol_identifier_must_be_zero() {
    let mut bytes = TCP_READ_HOLDING_REQUEST;
    bytes[3] = 0x01;
    assert_eq!(Tcp::decode_request(&bytes), Err(Error::ProtocolIdentifier(1)));
}

#[test]
fn ut_mbap_length_out_of_range() {
    for (raw, value) in [(0x0000u16, 0u32), (0x00FF, 255), (0xFFFF, 65535)] {
        let mut bytes = TCP_READ_HOLDING_REQUEST;
        bytes[4] = u8::try_from(raw >> 8).expect("high byte");
        bytes[5] = u8::try_from(raw & 0xFF).expect("low byte");
        assert_eq!(
            Tcp::decode_request(&bytes),
            Err(Error::OutOfRange {
                field: "MBAP length",
                value,
                min: 1,
                max: 254,
            }),
            "length {raw:#06x}"
        );
    }
}

#[test]
fn ut_mbap_length_must_match_supplied() {
    let mut bytes = TCP_READ_HOLDING_REQUEST;
    bytes[5] = 0x07;
    assert_eq!(
        Tcp::decode_request(&bytes),
        Err(Error::InvalidLength {
            expected: 7,
            actual: 6,
        })
    );
}

#[test]
fn ut_tcp_adu_too_large() {
    let bytes = vec![0x00; 261];
    assert_eq!(
        Tcp::decode_request(&bytes),
        Err(Error::AduTooLarge { len: 261, max: 260 })
    );
}

#[test]
fn ut_tcp_boundary_is_prefixed() {
    let AduBoundary::Prefixed { prefix, total } = Tcp::boundary() else {
        panic!("TCP is length-prefixed");
    };
    assert_eq!(prefix, 6);
    assert_eq!(total.apply(&TCP_READ_HOLDING_REQUEST[..6]), Ok(12));
}

#[test]
fn ut_tcp_boundary_rejects_an_invalid_length() {
    let AduBoundary::Prefixed { total, .. } = Tcp::boundary() else {
        panic!("TCP is length-prefixed");
    };
    assert_eq!(
        total.apply(&[0x00, 0x01, 0x00, 0x00, 0x00, 0x00]),
        Err(Error::OutOfRange {
            field: "MBAP length",
            value: 0,
            min: 1,
            max: 254,
        })
    );
}

#[test]
fn ut_tcp_adu_too_short() {
    assert_eq!(
        Tcp::decode_request(&[0x00, 0x01, 0x00, 0x00, 0x00]),
        Err(Error::Truncated {
            expected: 8,
            supplied: 5,
        })
    );
}

// ---------------------------------------------------------------- RTU

/// The Read Holding Registers request to server `0x11`, with its CRC.
const RTU_READ_HOLDING_REQUEST: [u8; 8] = [0x11, 0x03, 0x00, 0x6B, 0x00, 0x03, 0x76, 0x87];

/// Its response: three registers, same server.
const RTU_READ_HOLDING_RESPONSE: [u8; 11] = [
    0x11, 0x03, 0x06, 0x02, 0x2B, 0x00, 0x00, 0x00, 0x64, 0xC8, 0xBA,
];

#[test]
fn ut_rtu_request_spec_example() {
    let pdu = RequestPdu::ReadHoldingRegisters {
        address: Address(0x006B),
        quantity: Quantity(3),
    };
    assert_eq!(
        Rtu::decode_request(&RTU_READ_HOLDING_REQUEST),
        Ok((UnitId(0x11), pdu.clone()))
    );
    assert_eq!(
        Rtu::encode_request(&UnitId(0x11), &pdu),
        Ok(RTU_READ_HOLDING_REQUEST.to_vec())
    );
}

#[test]
fn ut_rtu_response_spec_example() {
    let pdu = ResponsePdu::ReadHoldingRegisters {
        registers: vec![
            RegisterValue(0x022B),
            RegisterValue(0x0000),
            RegisterValue(0x0064),
        ],
    };
    assert_eq!(
        Rtu::decode_response(&RTU_READ_HOLDING_RESPONSE),
        Ok((UnitId(0x11), pdu.clone()))
    );
    assert_eq!(
        Rtu::encode_response(&UnitId(0x11), &pdu),
        Ok(RTU_READ_HOLDING_RESPONSE.to_vec())
    );
}

#[test]
fn ut_rtu_crc_mismatch_rejected() {
    let mut bytes = RTU_READ_HOLDING_REQUEST;
    bytes[7] ^= 0xFF;
    assert_eq!(
        Rtu::decode_request(&bytes),
        Err(Error::Checksum {
            expected: 0x8776,
            actual: 0x7876,
        })
    );
}

#[test]
fn ut_rtu_crc_is_low_byte_first() {
    let mut bytes = RTU_READ_HOLDING_REQUEST;
    bytes.swap(6, 7);
    assert_eq!(
        Rtu::decode_request(&bytes),
        Err(Error::Checksum {
            expected: 0x8776,
            actual: 0x7687,
        })
    );
}

#[test]
fn ut_rtu_every_address_decodes() {
    let pdu = RequestPdu::ReadHoldingRegisters {
        address: Address(0x006B),
        quantity: Quantity(3),
    };
    for address in [0x00u8, 0x01, 0xF7, 0xF8, 0xFF] {
        let bytes = Rtu::encode_request(&UnitId(address), &pdu).expect("encodes");
        assert_eq!(
            Rtu::decode_request(&bytes),
            Ok((UnitId(address), pdu.clone())),
            "address {address:#04x}"
        );
    }
}

#[test]
fn ut_rtu_adu_too_large() {
    let bytes = vec![0x11; 257];
    assert_eq!(
        Rtu::decode_request(&bytes),
        Err(Error::AduTooLarge { len: 257, max: 256 })
    );
}

#[test]
fn ut_rtu_boundary_is_silence() {
    assert!(matches!(Rtu::boundary(), AduBoundary::Silence));
}

#[test]
fn ut_rtu_adu_too_short() {
    assert_eq!(
        Rtu::decode_request(&[0x11, 0x03]),
        Err(Error::Truncated {
            expected: 4,
            supplied: 2,
        })
    );
}

#[test]
fn ut_rtu_over_tcp_bytes_are_identical_to_rtu() {
    let pdu = RequestPdu::ReadHoldingRegisters {
        address: Address(0x006B),
        quantity: Quantity(3),
    };
    let header = UnitId(0x11);
    let rtu_bytes = Rtu::encode_request(&header, &pdu).expect("encodes");
    let rtu_over_tcp_bytes = RtuOverTcp::encode_request(&header, &pdu).expect("encodes");
    assert_eq!(rtu_bytes, rtu_over_tcp_bytes);

    let (rtu_addr, rtu_pdu) = Rtu::decode_request(&rtu_bytes).expect("decodes");
    let (rtu_over_tcp_addr, rtu_over_tcp_pdu) =
        RtuOverTcp::decode_request(&rtu_over_tcp_bytes).expect("decodes");
    assert_eq!(rtu_addr, rtu_over_tcp_addr);
    assert_eq!(rtu_pdu, rtu_over_tcp_pdu);
}

#[test]
fn ut_extent_needs_more_before_the_count_field() {
    // Write Multiple Registers for 10 registers at 0x0100; the byte count is
    // not yet in hand.
    let mut adu = vec![0x11, 0x10, 0x01, 0x00, 0x00, 0x0A];
    match derive_extent(Direction::Request, &adu) {
        Ok(Extent::NeedMore) => {}
        other => panic!("Expected NeedMore, got {:?}", other),
    }

    adu.push(0x14);
    let data = vec![0u8; 20];
    adu.extend_from_slice(&data);
    adu.extend_from_slice(&[0x00, 0x00]);
    match derive_extent(Direction::Request, &adu) {
        Ok(Extent::Complete(len)) => {
            assert_eq!(
                len,
                1 + 1 + 2 + 2 + 1 + 20 + 2,
                "address + FC + addr + qty + bytecount + data + CRC"
            );
        }
        other => panic!("Expected Complete, got {:?}", other),
    }
}

/// Asserts the extent of address, `pdu` and a dummy CRC.
fn assert_extent(direction: Direction, pdu: &[u8], expected_total_len: usize) {
    let mut adu = vec![0x11];
    adu.extend_from_slice(pdu);
    adu.extend_from_slice(&[0x00, 0x00]);
    match derive_extent(direction, &adu) {
        Ok(Extent::Complete(len)) => {
            assert_eq!(
                len, expected_total_len,
                "direction: {:?}, PDU: {:?}",
                direction, pdu
            );
        }
        other => panic!(
            "Expected Complete({}) for direction {:?}, PDU {:?}, got {:?}",
            expected_total_len, direction, pdu, other
        ),
    }
}

#[test]
fn ut_extent_table_over_every_derivable_code() {
    assert_extent(Direction::Request, &[0x01, 0x00, 0x00, 0x00, 0x0A], 8);
    assert_extent(Direction::Response, &[0x01, 0x02, 0xFF, 0x03], 7);
    assert_extent(Direction::Request, &[0x03, 0x00, 0x6B, 0x00, 0x03], 8);
    assert_extent(
        Direction::Response,
        &[0x03, 0x06, 0x02, 0x2B, 0x00, 0x00, 0x00, 0x64],
        11,
    );
    assert_extent(Direction::Request, &[0x05, 0x00, 0xAC, 0xFF, 0x00], 8);
    assert_extent(Direction::Response, &[0x05, 0x00, 0xAC, 0xFF, 0x00], 8);
    assert_extent(Direction::Request, &[0x07], 4);
    assert_extent(Direction::Response, &[0x07, 0xFF], 5);
    assert_extent(
        Direction::Request,
        &[0x0F, 0x00, 0x00, 0x00, 0x0A, 0x02, 0xFF, 0x03],
        11,
    );
    assert_extent(Direction::Response, &[0x0F, 0x00, 0x00, 0x00, 0x0A], 8);
    assert_extent(
        Direction::Request,
        &[
            0x10, 0x00, 0x00, 0x00, 0x03, 0x06, 0xAA, 0xBB, 0xCC, 0xDD, 0xEE, 0xFF,
        ],
        15,
    );
    assert_extent(Direction::Response, &[0x10, 0x00, 0x00, 0x00, 0x03], 8);
    assert_extent(
        Direction::Request,
        &[0x14, 0x07, 0x06, 0x00, 0x01, 0x00, 0x00, 0x00, 0x01],
        12,
    );
    assert_extent(Direction::Response, &[0x14, 0x02, 0x02, 0x06], 7);
    assert_extent(
        Direction::Request,
        &[
            0x17, 0x00, 0x00, 0x00, 0x03, 0x00, 0x00, 0x00, 0x02, 0x04, 0x12, 0x34, 0x56, 0x78,
        ],
        17,
    );
    assert_extent(
        Direction::Response,
        &[0x17, 0x06, 0x00, 0x01, 0x00, 0x02, 0x00, 0x03],
        11,
    );
    assert_extent(Direction::Request, &[0x2B, 0x0E, 0x03, 0x00], 7);
    assert_extent(
        Direction::Response,
        &[0x2B, 0x0E, 0x03, 0x82, 0x00, 0x00, 0x00],
        10,
    );
    assert_extent(Direction::Response, &[0x81, 0x03], 5);
}

#[test]
fn ut_extent_indeterminate_codes() {
    let mut adu = vec![0x11, 0x08, 0x00, 0x00];
    adu.extend_from_slice(&[0x00, 0x00]);
    assert_eq!(
        derive_extent(Direction::Request, &adu),
        Err(Error::IndeterminateLength { function: 0x08 })
    );

    let mut adu = vec![0x11, 0x2B, 0x0D];
    adu.extend_from_slice(&[0x00, 0x00]);
    assert_eq!(
        derive_extent(Direction::Request, &adu),
        Err(Error::IndeterminateLength { function: 0x2B })
    );
    assert_eq!(
        derive_extent(Direction::Response, &adu),
        Err(Error::IndeterminateLength { function: 0x2B })
    );

    let mut adu = vec![0x11, 0x50];
    adu.extend_from_slice(&[0x00, 0x00]);
    assert_eq!(
        derive_extent(Direction::Request, &adu),
        Err(Error::IndeterminateLength { function: 0x50 })
    );
}

#[test]
fn ut_extent_above_max_adu_len() {
    let mut adu = vec![0x11, 0x10, 0x00, 0x00, 0x00, 0x7D];
    adu.push(0xFA);
    adu.extend_from_slice(&vec![0x00u8; 250]);
    adu.extend_from_slice(&[0x00, 0x00]);
    assert_eq!(
        derive_extent(Direction::Request, &adu),
        Err(Error::AduTooLarge { len: 259, max: 256 })
    );
}

#[test]
fn ut_rtu_over_tcp_is_not_self_locating() {
    assert!(!RtuOverTcp::boundary().is_self_locating());
}

#[test]
fn ut_extent_agrees_with_the_encoder() {
    let req = RequestPdu::ReadHoldingRegisters {
        address: Address(0x006B),
        quantity: Quantity(3),
    };
    let header = UnitId(0x11);
    let encoded = RtuOverTcp::encode_request(&header, &req).expect("encodes");
    match derive_extent(Direction::Request, &encoded) {
        Ok(Extent::Complete(len)) => {
            assert_eq!(len, encoded.len(), "extent must agree with encoder");
        }
        other => panic!("Request extent failed: {:?}. Encoded PDU: {:?}", other, encoded),
    }

    let resp = ResponsePdu::ReadHoldingRegisters {
        registers: vec![
            RegisterValue(0x022B),
            RegisterValue(0x0000),
            RegisterValue(0x0064),
        ],
    };
    let encoded = RtuOverTcp::encode_response(&header, &resp).expect("encodes");
    match derive_extent(Direction::Response, &encoded) {
        Ok(Extent::Complete(len)) => {
            assert_eq!(len, encoded.len(), "extent must agree with encoder");
        }
        other => panic!("Response extent failed: {:?}. Encoded PDU: {:?}", other, encoded),
    }
}

// ---------------------------------------------------------------- ASCII

/// The Read Holding Registers request to server `0x11`, with its LRC.
const ASCII_READ_HOLDING_REQUEST: &[u8] = b":1103006B00037E\r\n";

fn read_holding() -> RequestPdu {
    RequestPdu::ReadHoldingRegisters {
        address: Address(0x006B),
        quantity: Quantity(3),
    }
}

#[test]
fn ut_ascii_request_spec_example() {
    assert_eq!(
        Ascii::decode_request(ASCII_READ_HOLDING_REQUEST),
        Ok((UnitId(0x11), read_holding()))
    );
    assert_eq!(
        Ascii::encode_request(&UnitId(0x11), &read_holding()),
        Ok(ASCII_READ_HOLDING_REQUEST.to_vec())
    );
}

#[test]
fn ut_ascii_response_spec_example() {
    let bytes = b":110306022B0000006455\r\n";
    let pdu = ResponsePdu::ReadHoldingRegisters {
        registers: vec![
            RegisterValue(0x022B),
            RegisterValue(0x0000),
            RegisterValue(0x0064),
        ],
    };
    assert_eq!(Ascii::decode_response(bytes), Ok((UnitId(0x11), pdu.clone())));
    assert_eq!(Ascii::encode_response(&UnitId(0x11), &pdu), Ok(bytes.to_vec()));
}

#[test]
fn ut_ascii_lowercase_reencodes_uppercase() {
    let lowercase = b":1103006b00037e\r\n";
    let (address, pdu) = Ascii::decode_request(lowercase).expect("lowercase decodes");
    assert_eq!((address, pdu.clone()), (UnitId(0x11), read_holding()));

    let uppercase = Ascii::encode_request(&address, &pdu).expect("re-encodes");
    assert_eq!(uppercase, ASCII_READ_HOLDING_REQUEST.to_vec());
    assert_eq!(Ascii::decode_request(&uppercase), Ok((address, pdu)));
}

#[test]
fn ut_ascii_carries_exception_responses() {
    let pdu = ResponsePdu::Exception(ExceptionResponse {
        function: FunctionCode::ReadHoldingRegisters,
        exception: ExceptionCode::IllegalDataAddress,
    });
    let bytes = Ascii::encode_response(&UnitId(0x11), &pdu).expect("encodes");
    assert_eq!(bytes, b":1183026A\r\n".to_vec());
    assert_eq!(Ascii::decode_response(&bytes), Ok((UnitId(0x11), pdu)));
}

#[test]
fn ut_ascii_lrc_mismatch_rejected() {
    assert_eq!(
        Ascii::decode_request(b":1103006B00037F\r\n"),
        Err(Error::Checksum {
            expected: 0x7E,
            actual: 0x7F,
        })
    );
}

#[test]
fn ut_ascii_invalid_hexadecimal_character() {
    assert_eq!(
        Ascii::decode_request(b":1103006B0003GE\r\n"),
        Err(Error::InvalidCharacter(b'G'))
    );
}

#[test]
fn ut_ascii_framing_errors() {
    assert_eq!(
        Ascii::decode_request(b"1103006B00037E\r\n"),
        Err(Error::Framing {
            element: "start character",
        })
    );
    assert_eq!(
        Ascii::decode_request(b":1103006B00037E\n\r"),
        Err(Error::Framing {
            element: "terminator",
        })
    );
    assert_eq!(
        Ascii::decode_request(b":1103006B00037\r\n"),
        Err(Error::Framing {
            element: "hexadecimal character count",
        })
    );
}

#[test]
fn ut_ascii_adu_too_large() {
    let bytes = vec![b'0'; 514];
    assert_eq!(
        Ascii::decode_request(&bytes),
        Err(Error::AduTooLarge { len: 514, max: 513 })
    );
}

#[test]
fn ut_ascii_adu_too_short() {
    assert_eq!(
        Ascii::decode_request(b":11\r\n"),
        Err(Error::Truncated {
            expected: 9,
            supplied: 5,
        })
    );
}

#[test]
fn ut_ascii_and_rtu_agree_on_address_and_pdu() {
    for address in [0x00u8, 0x01, 0xF7, 0xFF] {
        let ascii = Ascii::encode_request(&UnitId(address), &read_holding()).expect("encodes");
        let rtu = Rtu::encode_request(&UnitId(address), &read_holding()).expect("encodes");
        assert_eq!(
            Ascii::decode_request(&ascii),
            Rtu::decode_request(&rtu),
            "address {address:#04x}"
        );
    }
}

#[test]
fn one_register_read_over_tcp_is_the_documented_wire_format() {
    let header = MbapHeader {
        transaction_id: TransactionId(1),
        unit_id: UnitId(1),
    };
    let request = RequestPdu::ReadHoldingRegisters {
        address: Address(0x006B),
        quantity: Quantity(1),
    };
    let adu = Tcp::encode_request(&header, &request).expect("encodes");
    assert_eq!(
        adu,
        [0x00, 0x01, 0x00, 0x00, 0x00, 0x06, 0x01, 0x03, 0x00, 0x6B, 0x00, 0x01]
    );
    assert_eq!(Tcp::decode_request(&adu), Ok((header, request)));
    let reply = Tcp::encode_response(
        &header,
        &ResponsePdu::ReadHoldingRegisters {
            registers: vec![RegisterValue(0x022B)],
        },
    )
    .expect("encodes");
    assert_eq!(
        reply,
        [0x00, 0x01, 0x00, 0x00, 0x00, 0x05, 0x01, 0x03, 0x02, 0x02, 0x2B]
    );
}

#[test]
fn extent_agrees_with_the_encoder_for_a_partial_byte_of_coils() {
    let response = ResponsePdu::ReadCoils {
        coils: vec![true, false, true],
    };
    let adu = RtuOverTcp::encode_response(&UnitId(0x11), &response).expect("encodes");
    assert_eq!(adu.len(), 6);
    assert_eq!(
        derive_extent(Direction::Response, &adu),
        Ok(Extent::Complete(adu.len()))
    );
    for k in 0..adu.len() {
        assert_eq!(
            derive_extent(Direction::Response, &adu[..k]),
            Ok(Extent::NeedMore),
            "prefix of {k} bytes"
        );
    }
    // The coils read back with the padding of their byte.
    let (_, decoded) = RtuOverTcp::decode_response(&adu).expect("decodes");
    assert_eq!(
        decoded,
        ResponsePdu::ReadCoils {
            coils: vec![true, false, true, false, false, false, false, false],
        }
    );
}

#[test]
fn an_extent_once_found_stays_fixed() {
    let adu = RTU_READ_HOLDING_REQUEST.to_vec();
    let mut longer = adu.clone();
    longer.extend_from_slice(&[0x11, 0x03, 0xFF]);
    assert_eq!(derive_extent(Direction::Request, &adu), Ok(Extent::Complete(8)));
    assert_eq!(derive_extent(Direction::Request, &longer), Ok(Extent::Complete(8)));
    assert_eq!(derive_extent(Direction::Request, &[0x11, 0x03, 0x00]), Ok(Extent::NeedMore));
}

#[test]
fn an_ascii_adu_is_start_upper_case_digits_and_crlf() {
    let adu = Ascii::encode_request(&UnitId(0xAB), &read_holding()).expect("encodes");
    assert_eq!(adu.len(), 2 * 5 + 7);
    assert_eq!(adu[0], b':');
    assert_eq!(&adu[adu.len() - 2..], b"\r\n");
    assert!(adu[1..adu.len() - 2]
        .iter()
        .all(|c| c.is_ascii_digit() || (b'A'..=b'F').contains(c)));
}
