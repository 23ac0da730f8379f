//! Identifiers: a device on the network and a bay on a device, and the
//! dotted-hex text a device identifier is written as.

use vstd::prelude::*;

use crate::text::{decimal_text, push_decimal};

verus! {

/// The 16-byte identifier of a device on the network.
///
/// All zero is the empty identifier, which is how the protocol says "no
/// device".
#[derive(Clone, Copy, Debug, PartialEq, Eq)]
pub struct DeviceUid {
    /// The raw identifier, in wire order.
    pub bytes: [u8; 16],
}

/// A single bay: the device it is on, and its port number there.
#[derive(Clone, Copy, Debug, PartialEq, Eq)]
pub struct BayUid {
    /// The device the bay belongs to.
    pub device: DeviceUid,
    /// The bay's port number on that device.
    pub port: u16,
}

/// Characters in the text form of a device identifier.
pub const UID_TEXT_LEN: usize = 35;

/// The lowercase hexadecimal digit for `n`, which is below 16.
pub open spec fn hex_char(n: int) -> char {
    if n < 10 {
        ((n + 48) as u8) as char
    } else {
        ((n + 87) as u8) as char
    }
}

/// The value of a hexadecimal digit of either case.
pub open spec fn hex_value(c: char) -> Option<int> {
    if '0' <= c && c <= '9' {
        Some(c as int - 48)
    } else if 'a' <= c && c <= 'f' {
        Some(c as int - 87)
    } else if 'A' <= c && c <= 'F' {
        Some(c as int - 55)
    } else {
        None
    }
}

/// Whether position `i` of the text holds a group separator.
pub open spec fn is_separator_pos(i: int) -> bool {
    i % 9 == 8
}

/// The byte whose hex digit stands at position `i`: each group of eight digits
/// is a little-endian 32-bit word, so its digits name its bytes last first.
pub open spec fn byte_at_pos(i: int) -> int {
    4 * (i / 9) + 3 - (i % 9) / 2
}

/// The character at position `i` of the text form of `bytes`.
pub open spec fn uid_char(bytes: Seq<u8>, i: int) -> char {
    if is_separator_pos(i) {
        '.'
    } else if (i % 9) % 2 == 0 {
        hex_char(bytes[byte_at_pos(i)] as int / 16)
    } else {
        hex_char(bytes[byte_at_pos(i)] as int % 16)
    }
}

/// The text form of an identifier: four groups of eight lowercase hex digits,
/// each the little-endian word at that offset, joined by dots.
pub open spec fn uid_text(bytes: Seq<u8>) -> Seq<char> {
    Seq::new(35, |i: int| uid_char(bytes, i))
}

/// Where the high digit of byte `k` stands in the text.
pub open spec fn high_digit_pos(k: int) -> int {
    9 * (k / 4) + 2 * (3 - k % 4)
}

/// Whether `s` has the shape of an identifier's text: 35 characters, dots at
/// the three separators, hex digits everywhere else.
pub open spec fn well_formed_uid_text(s: Seq<char>) -> bool {
    &&& s.len() == 35
    &&& forall|i: int|
        0 <= i < 35 ==> (if is_separator_pos(i) {
            s[i] == '.'
        } else {
            hex_value(s[i]) is Some
        })
}

/// The byte that digits `k` of a well-formed text spell.
pub open spec fn parsed_byte(s: Seq<char>, k: int) -> int {
    16 * hex_value(s[high_digit_pos(k)])->0 + hex_value(s[high_digit_pos(k) + 1])->0
}

/// What reading `s` as an identifier gives: its sixteen bytes, or nothing.
pub open spec fn parse_uid_text(s: Seq<char>) -> Option<Seq<u8>> {
    if well_formed_uid_text(s) {
        Some(Seq::new(16, |k: int| parsed_byte(s, k) as u8))
    } else {
        None
    }
}

/// Why a text did not read as an identifier.
#[derive(Clone, Debug, PartialEq, Eq)]
pub struct UidParseError {
    /// The text that was refused.
    pub text: String,
}

impl UidParseError {
    /// What went wrong, naming the text that could not be read.
    pub fn message(&self) -> (m: String)
        ensures
            m@ == uid_error_prefix() + self.text@,
    {
        let mut m = String::from_str("not a device identifier: ");
        proof {
            reveal_strlit("not a device identifier: ");
        }
        m.append(self.text.as_str());
        m
    }
}

/// The text every identifier parse failure starts with.
pub open spec fn uid_error_prefix() -> Seq<char> {
    seq![
        'n', 'o', 't', ' ', 'a', ' ', 'd', 'e', 'v', 'i', 'c', 'e', ' ', 'i', 'd', 'e', 'n', 't',
        'i', 'f', 'i', 'e', 'r', ':', ' ',
    ]
}

/// The one-character string for the hex digit `n`.
fn hex_digit_str(n: u8) -> (s: &'static str)
    requires
        n < 16,
    ensures
        s@ == seq![hex_char(n as int)],
{
    proof {
        reveal_strlit("0");
        reveal_strlit("1");
        reveal_strlit("2");
        reveal_strlit("3");
        reveal_strlit("4");
        reveal_strlit("5");
        reveal_strlit("6");
        reveal_strlit("7");
        reveal_strlit("8");
        reveal_strlit("9");
        reveal_strlit("a");
        reveal_strlit("b");
        reveal_strlit("c");
        reveal_strlit("d");
        reveal_strlit("e");
        reveal_strlit("f");
    }
    match n {
        0 => "0",
        1 => "1",
        2 => "2",
        3 => "3",
        4 => "4",
        5 => "5",
        6 => "6",
        7 => "7",
        8 => "8",
        9 => "9",
        10 => "a",
        11 => "b",
        12 => "c",
        13 => "d",
        14 => "e",
        _ => "f",
    }
}

/// The value of one hex digit, if it is one.
fn hex_digit_value(c: char) -> (v: Option<u8>)
    ensures
        match v {
            Some(x) => hex_value(c) == Some(x as int) && x < 16,
            None => hex_value(c) is None,
        },
{
    if '0' <= c && c <= '9' {
        Some(((c as u32) - 48) as u8)
    } else if 'a' <= c && c <= 'f' {
        Some(((c as u32) - 87) as u8)
    } else if 'A' <= c && c <= 'F' {
        Some(((c as u32) - 55) as u8)
    } else {
        None
    }
}

impl DeviceUid {
    /// The empty identifier.
    pub fn zero() -> (uid: DeviceUid)
        ensures
            uid.spec_is_zero(),
    {
        DeviceUid { bytes: [0u8; 16] }
    }

    pub open spec fn spec_is_zero(&self) -> bool {
        forall|i: int| 0 <= i < 16 ==> self.bytes[i] == 0u8
    }

    /// Builds an identifier from its sixteen bytes.
    pub fn from_array(bytes: [u8; 16]) -> (uid: DeviceUid)
        ensures
            uid.bytes == bytes,
    {
        DeviceUid { bytes }
    }

    /// Whether this is the empty identifier.
    pub fn is_zero(&self) -> (b: bool)
        ensures
            b == self.spec_is_zero(),
    {
        let mut i: usize = 0;
        while i < 16
            invariant
                i <= 16,
                forall|j: int| 0 <= j < i ==> self.bytes[j] == 0u8,
            decreases 16 - i,
        {
            if self.bytes[i] != 0 {
                return false;
            }
            i = i + 1;
        }
        true
    }

    /// Whether two identifiers name the same device.
    pub fn same(&self, other: &DeviceUid) -> (b: bool)
        ensures
            b == (self.bytes@ == other.bytes@),
    {
        let mut i: usize = 0;
        while i < 16
            invariant
                i <= 16,
                forall|j: int| 0 <= j < i ==> self.bytes[j] == other.bytes[j],
            decreases 16 - i,
        {
            if self.bytes[i] != other.bytes[i] {
                return false;
            }
            i = i + 1;
        }
        assert(self.bytes@ =~= other.bytes@);
        true
    }

    /// The identifier as dotted hex, such as
    /// `00000007.00000000.00000000.a5000000`.
    pub fn to_text(&self) -> (s: String)
        ensures
            s@ == uid_text(self.bytes@),
    {
        let mut s = String::new();
        let mut i: usize = 0;
        while i < 35
            invariant
                i <= 35,
                s@ =~= uid_text(self.bytes@).take(i as int),
            decreases 35 - i,
        {
            if i % 9 == 8 {
                proof {
                    reveal_strlit(".");
                }
                s.append(".");
            } else {
                let k: usize = 4 * (i / 9) + 3 - (i % 9) / 2;
                let b: u8 = self.bytes[k];
                let digit: u8 = if (i % 9) % 2 == 0 { b / 16 } else { b % 16 };
                s.append(hex_digit_str(digit));
            }
            assert(uid_text(self.bytes@).take(i + 1) =~= uid_text(self.bytes@).take(i as int).push(
                uid_char(self.bytes@, i as int),
            ));
            i = i + 1;
        }
        assert(uid_text(self.bytes@).take(35) =~= uid_text(self.bytes@));
        s
    }

    /// Reads the dotted-hex form [`DeviceUid::to_text`] writes. Digits may be
    /// of either case; anything else is refused.
    pub fn parse(text: &str) -> (r: Result<DeviceUid, UidParseError>)
        ensures
            match r {
                Ok(uid) => parse_uid_text(text@) == Some(uid.bytes@),
                Err(e) => parse_uid_text(text@) is None && e.text@ == text@,
            },
    {
        let n = text.unicode_len();
        if n != 35 {
            return Err(UidParseError { text: String::from_str(text) });
        }
        let mut i: usize = 0;
        while i < 35
            invariant
                i <= 35,
                text@.len() == 35,
                forall|j: int|
                    0 <= j < i ==> (if is_separator_pos(j) {
                        text@[j] == '.'
                    } else {
                        hex_value(text@[j]) is Some
                    }),
            decreases 35 - i,
        {
            let c = text.get_char(i);
            if i % 9 == 8 {
                if c != '.' {
                    return Err(UidParseError { text: String::from_str(text) });
                }
            } else {
                if hex_digit_value(c).is_none() {
                    return Err(UidParseError { text: String::from_str(text) });
                }
            }
            i = i + 1;
        }
        assert(well_formed_uid_text(text@));
        let mut bytes = [0u8; 16];
        let mut k: usize = 0;
        while k < 16
            invariant
                k <= 16,
                well_formed_uid_text(text@),
                forall|j: int| 0 <= j < k ==> bytes[j] as int == parsed_byte(text@, j),
            decreases 16 - k,
        {
            let pos: usize = 9 * (k / 4) + 2 * (3 - k % 4);
            assert(!is_separator_pos(pos as int) && !is_separator_pos(pos + 1));
            let hi = hex_digit_value(text.get_char(pos));
            let lo = hex_digit_value(text.get_char(pos + 1));
            match (hi, lo) {
                (Some(h), Some(l)) => {
                    bytes[k] = h * 16 + l;
                },
                _ => {
                    return Err(UidParseError { text: String::from_str(text) });
                },
            }
            k = k + 1;
        }
        assert(bytes@ =~= Seq::new(16, |j: int| parsed_byte(text@, j) as u8));
        Ok(DeviceUid { bytes })
    }
}

/// The text form of a bay: its device's identifier and its port, joined by a
/// colon.
pub open spec fn bay_text(bay: BayUid) -> Seq<char> {
    uid_text(bay.device.bytes@) + seq![':'] + decimal_text(bay.port as nat)
}

impl BayUid {
    /// Names a bay by its device and port.
    pub fn new(device: DeviceUid, port: u16) -> (b: BayUid)
        ensures
            b.device == device,
            b.port == port,
    {
        BayUid { device, port }
    }

    /// Whether two bay identifiers name the same bay.
    pub fn same(&self, other: &BayUid) -> (b: bool)
        ensures
            b == (self.device.bytes@ == other.device.bytes@ && self.port == other.port),
    {
        self.port == other.port && self.device.same(&other.device)
    }

    /// The bay as text, such as `00000007.00000000.00000000.a5000000:2`.
    pub fn to_text(&self) -> (s: String)
        ensures
            s@ == bay_text(*self),
    {
        let mut s = self.device.to_text();
        proof {
            reveal_strlit(":");
        }
        s.append(":");
        push_decimal(&mut s, self.port as u64);
        s
    }
}

/// Two identifiers with the same bytes are the same identifier.
pub proof fn lemma_same_bytes(a: DeviceUid, b: DeviceUid)
    requires
        a.bytes@ == b.bytes@,
    ensures
        a == b,
{
    assert(a.bytes =~= b.bytes) by {
        assert forall|i: int| 0 <= i < 16 implies a.bytes[i] == b.bytes[i] by {
            assert(a.bytes@[i] == b.bytes@[i]);
        }
    }
}

/// Reading back what was written gives the identifier that was written.
pub proof fn lemma_uid_text_round_trip(bytes: Seq<u8>)
    requires
        bytes.len() == 16,
    ensures
        parse_uid_text(uid_text(bytes)) == Some(bytes),
{
    let s = uid_text(bytes);
    assert forall|i: int| 0 <= i < 35 implies (if is_separator_pos(i) {
        s[i] == '.'
    } else {
        hex_value(s[i]) is Some
    }) by {
        if !is_separator_pos(i) {
            let b = bytes[byte_at_pos(i)] as int;
            assert(0 <= b / 16 < 16);
            assert(0 <= b % 16 < 16);
        }
    }
    assert forall|k: int| 0 <= k < 16 implies parsed_byte(s, k) as u8 == bytes[k] by {
        let p = high_digit_pos(k);
        assert(byte_at_pos(p) == k);
        assert(byte_at_pos(p + 1) == k);
        assert(!is_separator_pos(p) && !is_separator_pos(p + 1));
        assert((p % 9) % 2 == 0);
        assert(((p + 1) % 9) % 2 == 1);
        let b = bytes[k] as int;
        assert(hex_value(hex_char(b / 16)) == Some(b / 16));
        assert(hex_value(hex_char(b % 16)) == Some(b % 16));
    }
    assert(Seq::new(16, |k: int| parsed_byte(s, k) as u8) =~= bytes);
}

} // verus!
