use mx_remote::frame::{build_frame, build_hello, parse_frame, parse_hello, HEADER_LEN, HELLO_LEN};
use mx_remote::ident::DeviceUid;
use mx_remote::registry::{accept_frame, State};

fn uid_n(n: u8) -> DeviceUid {
    let mut bytes = [0u8; 16];
    bytes[0] = n;
    bytes[15] = 0xa5;
    DeviceUid::from_array(bytes)
}

#[test]
fn a_frame_is_read_back_as_it_was_written() {
    let sender = uid_n(201);
    let f = build_frame(0x28, &sender, 0x0102, &[7, 8, 9]);
    assert_eq!(f.len(), HEADER_LEN + 3);
    assert_eq!(&f[..2], b"P8");
    assert_eq!(&f[2..4], &[0x28, 0]);
    assert_eq!(&f[4..20], &sender.bytes[..]);
    assert_eq!(u16::from_le_bytes([f[20], f[21]]), 0x0102, "the opcode sits at bytes 20-21");
    let back = parse_frame(&f).expect("a frame this library wrote did not parse");
    assert_eq!(back.protocol, 0x28);
    assert_eq!(back.sender, sender);
    assert_eq!(back.opcode, 0x0102);
    assert_eq!(back.payload, vec![7, 8, 9]);
}

#[test]
fn bytes_that_are_no_frame_are_refused() {
    let f = build_frame(1, &uid_n(1), 2, &[1, 2, 3, 4]);
    assert!(parse_frame(&f[..HEADER_LEN - 1]).is_none(), "a short header was read");
    assert!(parse_frame(&f[..HEADER_LEN + 3]).is_none(), "a short payload was read");
    let mut wrong = f.clone();
    wrong[0] = b'Q';
    assert!(parse_frame(&wrong).is_none(), "the magic was not checked");
    let mut longer = f.clone();
    longer.push(99);
    assert_eq!(parse_frame(&longer).expect("refused").payload, vec![1, 2, 3, 4]);
}

#[test]
fn the_announcement_describes_this_client() {
    let p = build_hello(0x28, b"MXR Rust", b"P9SN00000000", b"1.0.0", 1 << 4);
    assert_eq!(p.len(), HELLO_LEN);
    let seen = parse_hello(&p).expect("an announcement this library wrote did not parse");
    assert_eq!(seen.name, b"MXR Rust");
    assert_eq!(seen.serial, b"P9SN00000000");
    assert_eq!(seen.version, b"1.0.0");
    assert_eq!(seen.supported_protocol, 0x28);
    assert_eq!(seen.features, 1 << 4);
}

#[test]
fn an_announcement_field_is_cut_at_sixteen_bytes() {
    let p = build_hello(1, b"0123456789abcdefXYZ", b"", b"v", 0);
    let seen = parse_hello(&p).expect("refused");
    assert_eq!(seen.name, b"0123456789abcdef");
    assert!(seen.serial.is_empty());
    assert!(parse_hello(&p[..HELLO_LEN - 1]).is_none());
}

#[test]
fn frames_from_peers_are_counted_and_this_clients_own_are_not() {
    let own = uid_n(208);
    let mut state = State::new();
    let peer = parse_frame(&build_frame(0x28, &uid_n(1), 0x0102, &[])).expect("parses");
    assert!(accept_frame(&mut state, &own, &peer));
    assert!(accept_frame(&mut state, &own, &peer));
    assert_eq!(state.frames_received, 2);
    let mine = parse_frame(&build_frame(0x28, &own, 0x0102, &[])).expect("parses");
    assert!(!accept_frame(&mut state, &own, &mine));
    assert_eq!(state.frames_received, 2, "this client's own frame was counted");
}
