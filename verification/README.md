# mx_remote

A client-side model of the MX Remote protocol that Pulse-Eight MatrixOS
devices (matrices, OneIP/V2IP units, ProAmp8 amplifiers) speak over UDP, with
the C-facing layer a C caller reads. The library in `src/` is verified with
Verus; `app/` is the running client and its `extern "C"` entry points.

## Layout

- `src/ident.rs` — device and bay identifiers and their dotted-hex text.
- `src/net.rs` — IPv4 addresses and their dotted-decimal text.
- `src/frame.rs` — the frame header and the announcement payload.
- `src/registry.rs` — what devices have reported: devices, bays, links,
  the well-formedness every write-back keeps,
  Dolby groups, and what a command writes back.
- `src/control.rs` — what each command sends and to whom, the protocol
  check on the transmit path, and completing a command once it is sent.
- `src/info.rs` — device and bay snapshots, the lookups that find them, and
  the subsystem readings a device reports.
- `src/schedule.rs` — the announcement and discovery timers.
- `src/config.rs` — reading a caller's configuration, and where frames go.
- `src/event.rs` — the events, and the order a handler hears one in: its
  own method, then the generic updates it fans in to.
- `src/abi.rs`, `src/cabi.rs`, `src/bits.rs` — result codes, failure text,
  fixed-width text fields and the values a C caller reads.
- `src/error.rs`, `src/text.rs`, `src/types.rs` — errors, decimal text and
  the reported value types.

`app/` holds the threads, locks, clock and files of the running client, and
the C entry points. The socket and the codec that turns each request into
an opcode and payload bytes are supplied to the client as a `Link`.
