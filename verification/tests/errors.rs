use rust_modbus::Error;

#[test]
fn ut_stream_failures_are_distinguished_from_frame_failures() {
    assert!(Error::Io {
        kind: std::io::ErrorKind::BrokenPipe
    }
    .ends_stream());
    assert!(Error::ConnectionClosed.ends_stream());
    assert!(Error::Timeout { what: "response" }.ends_stream());

    assert!(!Error::Malformed.ends_stream());
    assert!(!Error::Checksum {
        expected: 1,
        actual: 2
    }
    .ends_stream());
    assert!(!Error::Truncated {
        expected: 8,
        supplied: 3
    }
    .ends_stream());
    assert!(!Error::InvalidFunctionCode(0x99).ends_stream());
}

#[test]
fn ut_tls_handshake_is_distinct_from_io_and_timeout() {
    assert_ne!(
        Error::TlsHandshake,
        Error::Io {
            kind: std::io::ErrorKind::Other
        }
    );
    assert_ne!(Error::TlsHandshake, Error::Timeout { what: "connect" });
}

#[test]
fn ut_io_error_maps_to_kind() {
    let error: Error = std::io::Error::from(std::io::ErrorKind::ConnectionRefused).into();
    assert_eq!(
        error,
        Error::Io {
            kind: std::io::ErrorKind::ConnectionRefused,
        }
    );
}
