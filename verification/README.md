# rust_modbus

Modbus client and server logic over TCP, RTU, RTU-over-TCP and ASCII framing,
written in Verus and proved against its contracts.

## Layout

- `src/frame/` — PDU and ADU encoding and decoding. `pdu_spec.rs` states what
  each encoder and decoder computes; `pdu.rs`, `mei.rs`, `file.rs` implement
  it; `tcp.rs`, `rtu.rs`, `ascii.rs` frame it. The laws live beside them:
  `reencode.rs` (whatever decodes re-encodes to the same bytes),
  `roundtrip.rs` (whatever encodes decodes back), `adu_laws.rs` (both,
  through every framing), `extent_laws.rs` (the RTU extent rule agrees with
  the encoder).
- `src/transport/` — the read buffer and where each ADU ends
  (`FrameTransport::next_step`), serial-line timing, RS-485 flags.
- `src/client/` — the client's state machine: identifiers, matching replies,
  what each failure leaves the client able to do, and the typed results.
- `src/server/` — which requests a server hands to its service, which it
  answers, and what a failure leaves a connection to do.
- `app/` — the asynchronous edge: sockets, serial ports, TLS, the client's
  `call` loop and the server's serving loops, driving the library's
  decisions. Not verified.
- `tests/` — examples on concrete bytes, run against the compiled library.

CRC-16 is computed by the `crc` crate; the library names its result and
proves everything around it.
