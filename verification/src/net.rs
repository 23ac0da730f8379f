//! IPv4 addresses as the library holds them, and their dotted-decimal text.

use vstd::prelude::*;

verus! {

/// An IPv4 address, most significant octet first.
#[derive(Clone, Copy, Debug, PartialEq, Eq, Structural)]
pub struct Ipv4 {
    pub a: u8,
    pub b: u8,
    pub c: u8,
    pub d: u8,
}

/// The decimal digits of `n`, without leading zeros.
pub open spec fn dec_text(n: u8) -> Seq<char> {
    if n < 10 {
        seq![digit_char(n as int)]
    } else if n < 100 {
        seq![digit_char(n as int / 10), digit_char(n as int % 10)]
    } else {
        seq![digit_char(n as int / 100), digit_char((n as int / 10) % 10), digit_char(n as int % 10)]
    }
}

pub open spec fn digit_char(n: int) -> char {
    ((n + 48) as u8) as char
}

/// The dotted-decimal text of an address, such as `239.1.2.3`.
pub open spec fn ipv4_text(ip: Ipv4) -> Seq<char> {
    dec_text(ip.a) + seq!['.'] + dec_text(ip.b) + seq!['.'] + dec_text(ip.c) + seq!['.'] + dec_text(
        ip.d,
    )
}

/// The address `s` is the text of, if it is the text of one.
pub open spec fn parse_ipv4_text(s: Seq<char>) -> Option<Ipv4> {
    if exists|ip: Ipv4| ipv4_text(ip) == s {
        Some(choose|ip: Ipv4| ipv4_text(ip) == s)
    } else {
        None
    }
}

/// Two addresses with the same text are the same address.
pub proof fn lemma_ipv4_text_injective(x: Ipv4, y: Ipv4)
    requires
        ipv4_text(x) == ipv4_text(y),
    ensures
        x == y,
{
    lemma_read_back(x);
    lemma_read_back(y);
}

pub open spec fn is_digit(c: char) -> bool {
    '0' <= c && c <= '9'
}

/// The length of the run of digits at the start of `s`, up to three.
pub open spec fn digit_run(s: Seq<char>) -> int {
    if s.len() >= 1 && is_digit(s[0]) {
        if s.len() >= 2 && is_digit(s[1]) {
            if s.len() >= 3 && is_digit(s[2]) {
                3
            } else {
                2
            }
        } else {
            1
        }
    } else {
        0
    }
}

/// The value of the first `n` digits of `s`.
pub open spec fn digits_value(s: Seq<char>, n: int) -> int
    decreases n,
{
    if n <= 0 {
        0
    } else {
        digits_value(s, n - 1) * 10 + (s[n - 1] as int - 48)
    }
}

proof fn lemma_dec_text(n: u8)
    ensures
        1 <= dec_text(n).len() <= 3,
        forall|i: int| 0 <= i < dec_text(n).len() ==> is_digit(#[trigger] dec_text(n)[i]),
        digits_value(dec_text(n), dec_text(n).len() as int) == n as int,
{
    let t = dec_text(n);
    assert(digits_value(t, 0) == 0);
    if n < 10 {
        assert(digits_value(t, 1) == n as int);
    } else if n < 100 {
        assert(digits_value(t, 1) == n as int / 10);
        assert(digits_value(t, 2) == n as int);
    } else {
        assert(digits_value(t, 1) == n as int / 100);
        assert(digits_value(t, 2) == (n as int / 100) * 10 + (n as int / 10) % 10);
        assert(digits_value(t, 3) == ((n as int / 100) * 10 + (n as int / 10) % 10) * 10 + n as int % 10);
    }
}

/// The run of digits of a byte's text ends where the text does, however it
/// continues.
proof fn lemma_run_of(n: u8, rest: Seq<char>)
    requires
        rest.len() == 0 || rest[0] == '.',
    ensures
        digit_run(dec_text(n) + rest) == dec_text(n).len(),
        digits_value(dec_text(n) + rest, dec_text(n).len() as int) == n as int,
{
    lemma_dec_text(n);
    let t = dec_text(n);
    let s = t + rest;
    assert forall|k: int| 0 <= k <= t.len() implies digits_value(s, k) == digits_value(t, k) by {
        lemma_digits_value_prefix(s, t, k);
    }
}

proof fn lemma_digits_value_prefix(s: Seq<char>, t: Seq<char>, k: int)
    requires
        0 <= k <= t.len(),
        k <= s.len(),
        forall|i: int| 0 <= i < k ==> s[i] == t[i],
    ensures
        digits_value(s, k) == digits_value(t, k),
    decreases k,
{
    if k > 0 {
        lemma_digits_value_prefix(s, t, k - 1);
    }
}

/// Reading one field of a byte's text gives the byte and what follows it.
proof fn lemma_field(n: u8, rest: Seq<char>)
    requires
        rest.len() == 0 || rest[0] == '.',
    ensures
        read_field(dec_text(n) + rest) == Some((n, rest)),
{
    lemma_run_of(n, rest);
    let t = dec_text(n);
    assert((t + rest).skip(t.len() as int) =~= rest);
}

/// The run-and-value reading of an address's text gives the address back.
proof fn lemma_read_back(ip: Ipv4)
    ensures
        read_text(ipv4_text(ip)) == Some(ip),
{
    let dot = seq!['.'];
    let empty = Seq::<char>::empty();
    let r3 = dot + dec_text(ip.d);
    let r2 = dot + dec_text(ip.c) + r3;
    let r1 = dot + dec_text(ip.b) + r2;
    let s = ipv4_text(ip);
    assert(s =~= dec_text(ip.a) + r1);
    lemma_field(ip.a, r1);
    assert(r1.skip(1) =~= dec_text(ip.b) + r2);
    lemma_field(ip.b, r2);
    assert(r2.skip(1) =~= dec_text(ip.c) + r3);
    lemma_field(ip.c, r3);
    assert(r3.skip(1) =~= dec_text(ip.d) + empty);
    lemma_field(ip.d, empty);
}

/// Reading one octet field at the start of `s`: a run of one to three digits
/// with a value of at most 255, and the rest of `s` after it.
pub open spec fn read_field(s: Seq<char>) -> Option<(u8, Seq<char>)> {
    let n = digit_run(s);
    if n >= 1 && digits_value(s, n) <= 255 {
        Some((digits_value(s, n) as u8, s.skip(n)))
    } else {
        None
    }
}

/// Reading four fields joined by dots, ignoring how each is spelled.
pub open spec fn read_text(s: Seq<char>) -> Option<Ipv4> {
    match read_field(s) {
        Some((a, r1)) => if r1.len() >= 1 && r1[0] == '.' {
            match read_field(r1.skip(1)) {
                Some((b, r2)) => if r2.len() >= 1 && r2[0] == '.' {
                    match read_field(r2.skip(1)) {
                        Some((c, r3)) => if r3.len() >= 1 && r3[0] == '.' {
                            match read_field(r3.skip(1)) {
                                Some((d, r4)) => if r4.len() == 0 {
                                    Some(Ipv4 { a, b, c, d })
                                } else {
                                    None
                                },
                                None => None,
                            }
                        } else {
                            None
                        },
                        None => None,
                    }
                } else {
                    None
                },
                None => None,
            }
        } else {
            None
        },
        None => None,
    }
}

/// The one-character string for the decimal digit `n`.
fn digit_str(n: u8) -> (s: &'static str)
    requires
        n < 10,
    ensures
        s@ == seq![digit_char(n as int)],
{
    proof {
        reveal_strlit("0");
        reveal_strlit("1");
        reveal_strlit("2");
        reveal_strlit("3");
        reveal_strlit("4");
        reveal_strlit("5");
        reveal_strlit("6");
        reveal_strlit("7");
        reveal_strlit("8");
        reveal_strlit("9");
    }
    match n {
        0 => "0",
        1 => "1",
        2 => "2",
        3 => "3",
        4 => "4",
        5 => "5",
        6 => "6",
        7 => "7",
        8 => "8",
        _ => "9",
    }
}

/// Appends the decimal text of `n` to `s`.
fn push_dec(s: &mut String, n: u8)
    ensures
        final(s)@ == old(s)@ + dec_text(n),
{
    if n < 10 {
        s.append(digit_str(n));
    } else if n < 100 {
        s.append(digit_str(n / 10));
        s.append(digit_str(n % 10));
    } else {
        s.append(digit_str(n / 100));
        s.append(digit_str((n / 10) % 10));
        s.append(digit_str(n % 10));
    }
}

/// The run of digits at position `p` of `text`, read as one octet field.
fn read_field_at(text: &str, len: usize, p: usize) -> (r: Option<(u8, usize)>)
    requires
        len == text@.len(),
        p <= len,
    ensures
        match r {
            Some((v, q)) => read_field(text@.skip(p as int)) == Some(
                (v, text@.skip(q as int)),
            ) && p < q <= len,
            None => read_field(text@.skip(p as int)) is None,
        },
{
    let ghost s = text@.skip(p as int);
    let mut n: usize = 0;
    let mut value: u32 = 0;
    while n < 3 && p + n < len && is_digit_char(text.get_char(p + n))
        invariant
            n <= 3,
            p + n <= len,
            len == text@.len(),
            s == text@.skip(p as int),
            forall|i: int| 0 <= i < n ==> is_digit(#[trigger] s[i]),
            value as int == digits_value(s, n as int),
            n == 0 ==> value == 0,
            n == 1 ==> value < 10,
            n == 2 ==> value < 100,
            value < 1000,
        decreases 3 - n,
    {
        let c = text.get_char(p + n);
        assert(s[n as int] == c);
        value = value * 10 + (c as u32 - 48);
        n = n + 1;
        assert(digits_value(s, n as int) == digits_value(s, n - 1) * 10 + (s[n - 1] as int - 48));
    }
    assert(digit_run(s) == n) by {
        if n < 3 {
            assert(p + n >= len || !is_digit(s[n as int]));
        }
    }
    if n >= 1 && value <= 255 {
        assert(s.skip(n as int) =~= text@.skip(p + n));
        Some((value as u8, p + n))
    } else {
        None
    }
}

fn is_digit_char(c: char) -> (b: bool)
    ensures
        b == is_digit(c),
{
    '0' <= c && c <= '9'
}

/// Reads four dotted fields as [`read_text`] does.
fn read_ipv4(text: &str) -> (r: Option<Ipv4>)
    ensures
        r == read_text(text@),
{
    let len = text.unicode_len();
    let (a, p1) = match read_field_at(text, len, 0) {
        Some(x) => x,
        None => {
            assert(text@.skip(0) =~= text@);
            return None;
        },
    };
    assert(text@.skip(0) =~= text@);
    if !(p1 < len && text.get_char(p1) == '.') {
        return None;
    }
    assert(text@.skip(p1 as int).skip(1) =~= text@.skip(p1 + 1));
    let (b, p2) = match read_field_at(text, len, p1 + 1) {
        Some(x) => x,
        None => return None,
    };
    if !(p2 < len && text.get_char(p2) == '.') {
        return None;
    }
    assert(text@.skip(p2 as int).skip(1) =~= text@.skip(p2 + 1));
    let (c, p3) = match read_field_at(text, len, p2 + 1) {
        Some(x) => x,
        None => return None,
    };
    if !(p3 < len && text.get_char(p3) == '.') {
        return None;
    }
    assert(text@.skip(p3 as int).skip(1) =~= text@.skip(p3 + 1));
    let (d, p4) = match read_field_at(text, len, p3 + 1) {
        Some(x) => x,
        None => return None,
    };
    if p4 != len {
        return None;
    }
    Some(Ipv4 { a, b, c, d })
}

impl Ipv4 {
    /// The address as dotted decimal.
    pub fn to_text(&self) -> (s: String)
        ensures
            s@ == ipv4_text(*self),
    {
        proof {
            reveal_strlit(".");
        }
        let mut s = String::new();
        push_dec(&mut s, self.a);
        s.append(".");
        push_dec(&mut s, self.b);
        s.append(".");
        push_dec(&mut s, self.c);
        s.append(".");
        push_dec(&mut s, self.d);
        assert(s@ =~= ipv4_text(*self));
        s
    }

    /// Reads dotted decimal: four fields of one to three digits, each at most
    /// 255 and with no leading zero. Anything else is refused.
    pub fn parse(text: &str) -> (r: Option<Ipv4>)
        ensures
            r == parse_ipv4_text(text@),
    {
        match read_ipv4(text) {
            None => {
                proof {
                    if exists|ip: Ipv4| ipv4_text(ip) == text@ {
                        let ip = choose|ip: Ipv4| ipv4_text(ip) == text@;
                        lemma_read_back(ip);
                    }
                }
                None
            },
            Some(ip) => {
                let written = ip.to_text();
                let given = String::from_str(text);
                if written == given {
                    proof {
                        let chosen = choose|x: Ipv4| ipv4_text(x) == text@;
                        lemma_ipv4_text_injective(chosen, ip);
                    }
                    Some(ip)
                } else {
                    proof {
                        if exists|x: Ipv4| ipv4_text(x) == text@ {
                            let x = choose|x: Ipv4| ipv4_text(x) == text@;
                            lemma_read_back(x);
                        }
                    }
                    None
                }
            },
        }
    }
}

} // verus!
