//! The frame every datagram is: a header naming the protocol it is written
//! in, its sender, its opcode and how long its payload is, then the payload.
//! And the announcement payload a client describes itself with.
//!
//! Multi-byte integers are little-endian.

use vstd::prelude::*;

use crate::ident::DeviceUid;

verus! {

/// How many bytes the header takes: the two magic bytes, the protocol, the
/// sender, the opcode and the payload length.
pub const HEADER_LEN: usize = 24;

/// The two bytes every frame starts with.
pub open spec fn magic() -> Seq<u8> {
    seq![0x50u8, 0x38u8]
}

/// A 16-bit value as its two little-endian bytes.
pub open spec fn le16(v: u16) -> Seq<u8> {
    seq![(v % 256) as u8, (v / 256) as u8]
}

/// The value two little-endian bytes hold.
pub open spec fn read_le16(lo: u8, hi: u8) -> u16 {
    (lo as int + 256 * hi as int) as u16
}

/// A 32-bit value as its four little-endian bytes.
pub open spec fn le32(v: u32) -> Seq<u8> {
    seq![
        (v % 256) as u8,
        ((v / 256) % 256) as u8,
        ((v / 65536) % 256) as u8,
        (v / 16777216) as u8,
    ]
}

/// The value four little-endian bytes hold.
pub open spec fn read_le32(b: Seq<u8>) -> u32 {
    (b[0] as int + 256 * b[1] as int + 65536 * b[2] as int + 16777216 * b[3] as int) as u32
}

/// One frame, taken apart.
#[derive(Clone, Debug, PartialEq, Eq)]
pub struct Frame {
    /// The protocol version the frame is written in.
    pub protocol: u16,
    pub sender: DeviceUid,
    pub opcode: u16,
    pub payload: Vec<u8>,
}

/// The bytes of a frame.
pub open spec fn frame_bytes(protocol: u16, sender: DeviceUid, opcode: u16, payload: Seq<u8>) -> Seq<
    u8,
> {
    magic() + le16(protocol) + sender.bytes@ + le16(opcode) + le16(payload.len() as u16) + payload
}

proof fn lemma_le16(v: u16)
    ensures
        read_le16(le16(v)[0], le16(v)[1]) == v,
        le16(v).len() == 2,
{
    assert((v % 256) as u8 as int + 256 * ((v / 256) as u8 as int) == v as int) by (nonlinear_arith);
}

fn push_le16(out: &mut Vec<u8>, v: u16)
    ensures
        final(out)@ == old(out)@ + le16(v),
{
    out.push((v % 256) as u8);
    out.push((v / 256) as u8);
    assert(final(out)@ =~= old(out)@ + le16(v));
}

fn push_bytes(out: &mut Vec<u8>, bytes: &[u8])
    ensures
        final(out)@ == old(out)@ + bytes@,
{
    let ghost start = out@;
    let mut i: usize = 0;
    while i < bytes.len()
        invariant
            i <= bytes@.len(),
            out@ == start + bytes@.take(i as int),
        decreases bytes@.len() - i,
    {
        out.push(bytes[i]);
        i = i + 1;
        assert(out@ =~= start + bytes@.take(i as int));
    }
    assert(bytes@.take(bytes@.len() as int) =~= bytes@);
}

/// Writes a frame: the header, then the payload.
pub fn build_frame(protocol: u16, sender: &DeviceUid, opcode: u16, payload: &[u8]) -> (f: Vec<u8>)
    requires
        payload@.len() <= u16::MAX,
    ensures
        f@ == frame_bytes(protocol, *sender, opcode, payload@),
        f@.len() == HEADER_LEN + payload@.len(),
{
    let mut f: Vec<u8> = Vec::new();
    f.push(0x50);
    f.push(0x38);
    push_le16(&mut f, protocol);
    push_bytes(&mut f, &sender.bytes);
    push_le16(&mut f, opcode);
    push_le16(&mut f, payload.len() as u16);
    push_bytes(&mut f, payload);
    assert(f@ =~= frame_bytes(protocol, *sender, opcode, payload@));
    f
}

/// Whether `bytes` holds a frame: the magic, a whole header, and at least as
/// many payload bytes as the header declares.
pub open spec fn is_frame(bytes: Seq<u8>) -> bool {
    &&& bytes.len() >= HEADER_LEN
    &&& bytes[0] == 0x50u8 && bytes[1] == 0x38u8
    &&& HEADER_LEN + read_le16(bytes[22], bytes[23]) <= bytes.len()
}

/// The frame `bytes` holds; anything past the declared payload is not part of
/// it.
pub open spec fn spec_parse_frame(bytes: Seq<u8>) -> Option<(u16, Seq<u8>, u16, Seq<u8>)> {
    if is_frame(bytes) {
        Some(
            (
                read_le16(bytes[2], bytes[3]),
                bytes.subrange(4, 20),
                read_le16(bytes[20], bytes[21]),
                bytes.subrange(24, 24 + read_le16(bytes[22], bytes[23])),
            ),
        )
    } else {
        None
    }
}

/// Takes a frame apart, refusing bytes that are not one.
pub fn parse_frame(bytes: &[u8]) -> (r: Option<Frame>)
    ensures
        match spec_parse_frame(bytes@) {
            Some((protocol, sender, opcode, payload)) => r matches Some(f) && f.protocol
                == protocol && f.sender.bytes@ == sender && f.opcode == opcode && f.payload@
                == payload,
            None => r is None,
        },
{
    if bytes.len() < HEADER_LEN || bytes[0] != 0x50 || bytes[1] != 0x38 {
        return None;
    }
    let len = bytes[22] as usize + 256 * bytes[23] as usize;
    if bytes.len() - HEADER_LEN < len {
        return None;
    }
    let mut sender = [0u8; 16];
    let mut i: usize = 0;
    while i < 16
        invariant
            i <= 16,
            bytes@.len() >= HEADER_LEN,
            forall|j: int| 0 <= j < i ==> sender[j] == bytes@[4 + j],
        decreases 16 - i,
    {
        sender[i] = bytes[4 + i];
        i = i + 1;
    }
    let mut payload: Vec<u8> = Vec::new();
    let mut k: usize = 0;
    while k < len
        invariant
            k <= len,
            HEADER_LEN + len <= bytes@.len(),
            bytes@.len() == bytes.len(),
            payload@ == bytes@.subrange(24, 24 + k as int),
        decreases len - k,
    {
        payload.push(bytes[HEADER_LEN + k]);
        k = k + 1;
        assert(payload@ =~= bytes@.subrange(24, 24 + k as int));
    }
    let uid = DeviceUid::from_array(sender);
    assert(uid.bytes@ =~= bytes@.subrange(4, 20));
    Some(
        Frame {
            protocol: bytes[2] as u16 + 256 * bytes[3] as u16,
            sender: uid,
            opcode: bytes[20] as u16 + 256 * bytes[21] as u16,
            payload,
        },
    )
}

/// A frame written is read back as written.
pub proof fn lemma_frame_round_trip(protocol: u16, sender: DeviceUid, opcode: u16, payload: Seq<u8>)
    requires
        payload.len() <= u16::MAX,
    ensures
        spec_parse_frame(frame_bytes(protocol, sender, opcode, payload)) == Some(
            (protocol, sender.bytes@, opcode, payload),
        ),
{
    let b = frame_bytes(protocol, sender, opcode, payload);
    lemma_le16(protocol);
    lemma_le16(opcode);
    lemma_le16(payload.len() as u16);
    assert(b.len() == HEADER_LEN + payload.len());
    assert(b[2] == le16(protocol)[0] && b[3] == le16(protocol)[1]);
    assert(b[20] == le16(opcode)[0] && b[21] == le16(opcode)[1]);
    assert(b[22] == le16(payload.len() as u16)[0] && b[23] == le16(payload.len() as u16)[1]);
    assert(b.subrange(4, 20) =~= sender.bytes@);
    assert(b.subrange(24, 24 + payload.len() as int) =~= payload);
}

/// A text field `width` bytes wide: the text's bytes cut at the width, then
/// zeros to the end.
pub open spec fn fixed_field(text: Seq<u8>, width: nat) -> Seq<u8> {
    if text.len() >= width {
        text.take(width as int)
    } else {
        text + Seq::new((width - text.len()) as nat, |i: int| 0u8)
    }
}

/// The text a field holds: its bytes up to the first zero.
pub open spec fn field_text(field: Seq<u8>) -> Seq<u8> {
    if exists|i: int| 0 <= i < field.len() && field[i] == 0u8 {
        field.take(
            choose|i: int|
                0 <= i < field.len() && field[i] == 0u8 && forall|j: int|
                    0 <= j < i ==> field[j] != 0u8,
        )
    } else {
        field
    }
}

/// How wide the text fields of an announcement are.
pub const HELLO_FIELD: usize = 16;

/// How long an announcement's payload is.
pub const HELLO_LEN: usize = 54;

/// What a client announces about itself.
#[derive(Clone, Debug, PartialEq, Eq)]
pub struct Hello {
    /// The highest protocol version it can decode.
    pub supported_protocol: u16,
    pub name: Vec<u8>,
    pub serial: Vec<u8>,
    pub version: Vec<u8>,
    /// What it can do, as `MXR_FEATURE_*` bits.
    pub features: u32,
}

/// The payload of an announcement.
pub open spec fn hello_bytes(
    protocol: u16,
    name: Seq<u8>,
    serial: Seq<u8>,
    version: Seq<u8>,
    features: u32,
) -> Seq<u8> {
    le16(protocol) + fixed_field(name, 16) + fixed_field(serial, 16) + fixed_field(version, 16)
        + le32(features)
}

fn push_field(out: &mut Vec<u8>, text: &[u8])
    ensures
        final(out)@ == old(out)@ + fixed_field(text@, 16),
{
    let ghost start = out@;
    let mut i: usize = 0;
    while i < HELLO_FIELD
        invariant
            i <= HELLO_FIELD,
            out@ == start + fixed_field(text@, 16).take(i as int),
        decreases HELLO_FIELD - i,
    {
        if i < text.len() {
            out.push(text[i]);
        } else {
            out.push(0);
        }
        i = i + 1;
        assert(out@ =~= start + fixed_field(text@, 16).take(i as int));
    }
    assert(fixed_field(text@, 16).take(16) =~= fixed_field(text@, 16));
}

/// Writes the payload a client announces itself with.
pub fn build_hello(protocol: u16, name: &[u8], serial: &[u8], version: &[u8], features: u32) -> (p:
    Vec<u8>)
    ensures
        p@ == hello_bytes(protocol, name@, serial@, version@, features),
        p@.len() == HELLO_LEN,
{
    let mut p: Vec<u8> = Vec::new();
    push_le16(&mut p, protocol);
    push_field(&mut p, name);
    push_field(&mut p, serial);
    push_field(&mut p, version);
    p.push((features % 256) as u8);
    p.push(((features / 256) % 256) as u8);
    p.push(((features / 65536) % 256) as u8);
    p.push((features / 16777216) as u8);
    assert(p@ =~= hello_bytes(protocol, name@, serial@, version@, features));
    p
}

/// Reads the text of one field of an announcement.
fn read_field(bytes: &[u8], start: usize) -> (t: Vec<u8>)
    requires
        start + HELLO_FIELD <= bytes@.len(),
    ensures
        t@ == field_text(bytes@.subrange(start as int, start + 16)),
{
    let ghost field = bytes@.subrange(start as int, start + 16);
    let mut t: Vec<u8> = Vec::new();
    let mut i: usize = 0;
    while i < HELLO_FIELD && bytes[start + i] != 0
        invariant
            i <= HELLO_FIELD,
            start + HELLO_FIELD <= bytes@.len(),
            bytes@.len() == bytes.len(),
            field == bytes@.subrange(start as int, start + 16),
            t@ == field.take(i as int),
            forall|j: int| 0 <= j < i ==> field[j] != 0u8,
        decreases HELLO_FIELD - i,
    {
        t.push(bytes[start + i]);
        i = i + 1;
        assert(t@ =~= field.take(i as int));
    }
    proof {
        if i < HELLO_FIELD {
            assert(field[i as int] == 0u8);
            let c = choose|c: int|
                0 <= c < field.len() && field[c] == 0u8 && forall|j: int|
                    0 <= j < c ==> field[j] != 0u8;
            assert(c == i);
        } else {
            assert(field.take(16) =~= field);
        }
    }
    t
}

/// What an announcement payload says, if it is long enough to be one.
pub open spec fn spec_parse_hello(p: Seq<u8>) -> Option<(u16, Seq<u8>, Seq<u8>, Seq<u8>, u32)> {
    if p.len() >= HELLO_LEN {
        Some(
            (
                read_le16(p[0], p[1]),
                field_text(p.subrange(2, 18)),
                field_text(p.subrange(18, 34)),
                field_text(p.subrange(34, 50)),
                read_le32(p.subrange(50, 54)),
            ),
        )
    } else {
        None
    }
}

/// Reads an announcement payload.
pub fn parse_hello(p: &[u8]) -> (r: Option<Hello>)
    ensures
        match spec_parse_hello(p@) {
            Some((protocol, name, serial, version, features)) => r matches Some(h)
                && h.supported_protocol == protocol && h.name@ == name && h.serial@ == serial
                && h.version@ == version && h.features == features,
            None => r is None,
        },
{
    if p.len() < HELLO_LEN {
        return None;
    }
    let features = p[50] as u32 + 256 * p[51] as u32 + 65536 * p[52] as u32 + 16777216 * p[53] as u32;
    Some(
        Hello {
            supported_protocol: p[0] as u16 + 256 * p[1] as u16,
            name: read_field(p, 2),
            serial: read_field(p, 18),
            version: read_field(p, 34),
            features,
        },
    )
}

/// The text of a field written from `text` is `text` again, when it fits and
/// holds no zero byte.
proof fn lemma_field_round_trip(text: Seq<u8>)
    requires
        text.len() < 16,
        forall|i: int| 0 <= i < text.len() ==> text[i] != 0u8,
    ensures
        field_text(fixed_field(text, 16)) == text,
{
    let f = fixed_field(text, 16);
    let n = text.len() as int;
    assert(f[n] == 0u8);
    let c = choose|c: int| 0 <= c < f.len() && f[c] == 0u8 && forall|j: int| 0 <= j < c ==> f[j] != 0u8;
    assert(forall|j: int| 0 <= j < n ==> f[j] != 0u8);
    assert(c == n);
    assert(f.take(n) =~= text);
}

/// An announcement is read back as it was written, when its texts fit their
/// fields with a terminator to spare and hold no zero byte.
pub proof fn lemma_hello_round_trip(
    protocol: u16,
    name: Seq<u8>,
    serial: Seq<u8>,
    version: Seq<u8>,
    features: u32,
)
    requires
        name.len() < 16 && serial.len() < 16 && version.len() < 16,
        forall|i: int| 0 <= i < name.len() ==> name[i] != 0u8,
        forall|i: int| 0 <= i < serial.len() ==> serial[i] != 0u8,
        forall|i: int| 0 <= i < version.len() ==> version[i] != 0u8,
    ensures
        spec_parse_hello(hello_bytes(protocol, name, serial, version, features)) == Some(
            (protocol, name, serial, version, features),
        ),
{
    let p = hello_bytes(protocol, name, serial, version, features);
    lemma_le16(protocol);
    lemma_field_round_trip(name);
    lemma_field_round_trip(serial);
    lemma_field_round_trip(version);
    assert(p.len() == HELLO_LEN);
    assert(p.subrange(2, 18) =~= fixed_field(name, 16));
    assert(p.subrange(18, 34) =~= fixed_field(serial, 16));
    assert(p.subrange(34, 50) =~= fixed_field(version, 16));
    assert(p.subrange(50, 54) =~= le32(features));
    assert(read_le32(le32(features)) == features) by (nonlinear_arith);
}

/// The layout of every frame written: the magic `P8`, then the protocol,
/// the sender's identifier, the opcode and the payload's length, each
/// multi-byte number low byte first, then the payload.
pub proof fn lemma_frame_layout(protocol: u16, sender: DeviceUid, opcode: u16, payload: Seq<u8>)
    requires
        payload.len() <= u16::MAX,
    ensures
        ({
            let b = frame_bytes(protocol, sender, opcode, payload);
            &&& b.len() == 24 + payload.len()
            &&& b[0] == 0x50u8 && b[1] == 0x38u8
            &&& b[2] as int == protocol as int % 256 && b[3] as int == protocol as int / 256
            &&& forall|i: int| 0 <= i < 16 ==> b[4 + i] == sender.bytes@[i]
            &&& b[20] as int == opcode as int % 256 && b[21] as int == opcode as int / 256
            &&& b[22] as int == payload.len() % 256 && b[23] as int == payload.len() / 256
            &&& forall|i: int| 0 <= i < payload.len() ==> b[24 + i] == payload[i]
        }),
{
    let b = frame_bytes(protocol, sender, opcode, payload);
    assert(b == magic() + le16(protocol) + sender.bytes@ + le16(opcode) + le16(
        payload.len() as u16,
    ) + payload);
    assert(b.len() == 24 + payload.len());
    assert forall|i: int| 0 <= i < 16 implies b[4 + i] == sender.bytes@[i] by {
        assert(b[4 + i] == (magic() + le16(protocol) + sender.bytes@)[4 + i]);
    }
    assert forall|i: int| 0 <= i < payload.len() implies b[24 + i] == payload[i] by {}
    assert(b[22] == le16(payload.len() as u16)[0]);
    assert(b[23] == le16(payload.len() as u16)[1]);
}

/// Reading a frame: bytes that begin with `P8`, hold a whole header, and
/// carry at least as many payload bytes as bytes 22-23 declare (low byte
/// first) are read as the protocol in bytes 2-3, the sender in bytes 4-19,
/// the opcode in bytes 20-21, and exactly the declared number of bytes from
/// byte 24 as the payload; any other bytes are no frame.
pub proof fn lemma_frame_reading(bytes: Seq<u8>)
    ensures
        ({
            let declared = bytes[22] as int + 256 * bytes[23] as int;
            let whole = bytes.len() >= 24 && bytes[0] == 0x50u8 && bytes[1] == 0x38u8 && 24
                + declared <= bytes.len();
            &&& whole ==> (spec_parse_frame(bytes) matches Some((p, s, o, payload)) && p as int
                == bytes[2] as int + 256 * bytes[3] as int && s == bytes.subrange(4, 20) && o as int
                == bytes[20] as int + 256 * bytes[21] as int && payload == bytes.subrange(
                24,
                24 + declared,
            ) && payload.len() == declared)
            &&& !whole ==> spec_parse_frame(bytes) is None
        }),
{
    if bytes.len() >= 24 {
        let lo = bytes[22];
        let hi = bytes[23];
        assert(lo as int + 256 * hi as int <= 65535);
        assert(read_le16(lo, hi) as int == lo as int + 256 * hi as int);
        assert(read_le16(bytes[2], bytes[3]) as int == bytes[2] as int + 256 * bytes[3] as int);
        assert(read_le16(bytes[20], bytes[21]) as int == bytes[20] as int + 256 * bytes[21] as int);
    }
}

/// The layout of every announcement: the protocol low byte first, the name,
/// serial and version fields, then the feature word, low byte first, in
/// bytes 50-53.
pub proof fn lemma_hello_layout(
    protocol: u16,
    name: Seq<u8>,
    serial: Seq<u8>,
    version: Seq<u8>,
    features: u32,
)
    ensures
        ({
            let p = hello_bytes(protocol, name, serial, version, features);
            &&& p.len() == 54
            &&& p[0] as int == protocol as int % 256 && p[1] as int == protocol as int / 256
            &&& p.subrange(2, 18) == fixed_field(name, 16)
            &&& p.subrange(18, 34) == fixed_field(serial, 16)
            &&& p.subrange(34, 50) == fixed_field(version, 16)
            &&& p[50] as int == features as int % 256
            &&& p[51] as int == (features as int / 256) % 256
            &&& p[52] as int == (features as int / 65536) % 256
            &&& p[53] as int == features as int / 16777216
        }),
{
    let p = hello_bytes(protocol, name, serial, version, features);
    assert(p.len() == 54);
    assert(p.subrange(2, 18) =~= fixed_field(name, 16));
    assert(p.subrange(18, 34) =~= fixed_field(serial, 16));
    assert(p.subrange(34, 50) =~= fixed_field(version, 16));
    assert(p[50] == le32(features)[0]);
    assert(p[51] == le32(features)[1]);
    assert(p[52] == le32(features)[2]);
    assert(p[53] == le32(features)[3]);
    assert(features as int / 16777216 < 256) by (nonlinear_arith);
}

/// Reading an announcement: a payload of at least 54 bytes is read with the
/// protocol from bytes 0-1 and the feature word from bytes 50-53, each low
/// byte first; a shorter one is no announcement.
pub proof fn lemma_hello_reading(p: Seq<u8>)
    ensures
        p.len() >= 54 ==> (spec_parse_hello(p) matches Some((protocol, _, _, _, features))
            && protocol as int == p[0] as int + 256 * p[1] as int && features as int == p[50] as int
            + 256 * p[51] as int + 65536 * p[52] as int + 16777216 * p[53] as int),
        p.len() < 54 ==> spec_parse_hello(p) is None,
{
    if p.len() >= 54 {
        let b = p.subrange(50, 54);
        assert(b[0] == p[50] && b[1] == p[51] && b[2] == p[52] && b[3] == p[53]);
        let (b0, b1, b2, b3) = (p[50], p[51], p[52], p[53]);
        assert(b0 as int + 256 * b1 as int + 65536 * b2 as int + 16777216 * b3 as int
            <= 4294967295) by (nonlinear_arith)
            requires
                b0 <= 255 && b1 <= 255 && b2 <= 255 && b3 <= 255,
        ;
    }
}

/// A text field of an announcement holds the text's bytes, as many as fit in
/// its 16, then zeros.
pub proof fn lemma_field_layout(text: Seq<u8>)
    ensures
        fixed_field(text, 16).len() == 16,
        forall|i: int|
            0 <= i < 16 ==> #[trigger] fixed_field(text, 16)[i] == (if i < text.len() {
                text[i]
            } else {
                0u8
            }),
{
}

/// Reading a text field gives its bytes up to the first zero, or all 16 when
/// there is none.
pub proof fn lemma_field_reading(field: Seq<u8>)
    requires
        field.len() == 16,
    ensures
        field_text(field).len() <= 16,
        forall|j: int| 0 <= j < field_text(field).len() ==> #[trigger] field_text(field)[j] == field[j]
            && field[j] != 0u8,
        field_text(field).len() == 16 || field[field_text(field).len() as int] == 0u8,
{
    if exists|i: int| 0 <= i < field.len() && field[i] == 0u8 {
        let c = choose|i: int|
            0 <= i < field.len() && field[i] == 0u8 && forall|j: int| 0 <= j < i ==> field[j] != 0u8;
        assert(field_text(field) == field.take(c));
    } else {
        assert(field_text(field) == field);
    }
}

} // verus!
