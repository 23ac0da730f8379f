//! What every C entry point shares: the result code, the identifiers, the
//! per-thread failure text, and the fixed-width text fields.
#![allow(non_camel_case_types)]

use vstd::prelude::*;
use vstd::string::StringSliceAdditionalSpecFns;

use crate::error::{control_error_text, send_error_text, ControlError, SendError};
use vstd::utf8::{
    encode_utf8, encode_utf8_valid_utf8, is_ascii_chars, is_ascii_chars_encode_utf8,
    is_char_boundary, is_char_boundary_start_end_of_seq,
};

use crate::ident::{byte_at_pos, is_separator_pos, parse_uid_text, uid_error_prefix, uid_text, BayUid, DeviceUid};

verus! {

/// Bytes a [`mxr_uid_t`] needs when written as text, the terminator included.
pub const MXR_UID_STRING_LEN: usize = 36;

/// How a call ended.
///
/// Everything but [`mxr_result_t::MXR_OK`] is negative, so `if (rc < 0)` is a
/// complete test and a new code cannot turn a failure into a success.
#[derive(Clone, Copy, Debug, PartialEq, Eq, Structural)]
pub enum mxr_result_t {
    /// The call did what was asked.
    MXR_OK,
    /// A pointer was null, a buffer too small, or a string not UTF-8.
    MXR_ERR_INVALID_ARGUMENT,
    /// No device, bay or source by that name has been heard from.
    MXR_ERR_NOT_FOUND,
    /// The addressed device speaks a protocol older than the command needs.
    MXR_ERR_PROTOCOL_TOO_OLD,
    /// The client has no socket, because it was never started or was closed.
    MXR_ERR_NOT_CONNECTED,
    /// The socket write failed, or the socket could not be opened.
    MXR_ERR_IO,
    /// The addressee does not do what was asked of it.
    MXR_ERR_UNSUPPORTED,
    /// The device has not reported something the request is assembled from.
    MXR_ERR_NOT_REPORTED,
    /// A panic was caught at the boundary. The library's state is unknown.
    MXR_ERR_PANIC,
}

impl mxr_result_t {
    /// The integer C sees.
    pub open spec fn spec_code(self) -> i32 {
        match self {
            mxr_result_t::MXR_OK => 0i32,
            mxr_result_t::MXR_ERR_INVALID_ARGUMENT => -1i32,
            mxr_result_t::MXR_ERR_NOT_FOUND => -2i32,
            mxr_result_t::MXR_ERR_PROTOCOL_TOO_OLD => -3i32,
            mxr_result_t::MXR_ERR_NOT_CONNECTED => -4i32,
            mxr_result_t::MXR_ERR_IO => -5i32,
            mxr_result_t::MXR_ERR_UNSUPPORTED => -6i32,
            mxr_result_t::MXR_ERR_NOT_REPORTED => -7i32,
            mxr_result_t::MXR_ERR_PANIC => -8i32,
        }
    }

    /// The integer C sees.
    pub fn code(self) -> (c: i32)
        ensures
            c == self.spec_code(),
    {
        match self {
            mxr_result_t::MXR_OK => 0,
            mxr_result_t::MXR_ERR_INVALID_ARGUMENT => -1,
            mxr_result_t::MXR_ERR_NOT_FOUND => -2,
            mxr_result_t::MXR_ERR_PROTOCOL_TOO_OLD => -3,
            mxr_result_t::MXR_ERR_NOT_CONNECTED => -4,
            mxr_result_t::MXR_ERR_IO => -5,
            mxr_result_t::MXR_ERR_UNSUPPORTED => -6,
            mxr_result_t::MXR_ERR_NOT_REPORTED => -7,
            mxr_result_t::MXR_ERR_PANIC => -8,
        }
    }
}

/// Every result but success is negative, and no two results share a code, so
/// `rc < 0` is a complete test for failure.
pub proof fn lemma_failure_is_negative(r: mxr_result_t, s: mxr_result_t)
    ensures
        (r.spec_code() < 0) <==> (r != mxr_result_t::MXR_OK),
        r.spec_code() == 0 <==> r == mxr_result_t::MXR_OK,
        r.spec_code() == s.spec_code() ==> r == s,
{
}

/// A flag a device may not have reported.
#[derive(Clone, Copy, Debug, PartialEq, Eq, Structural)]
pub enum mxr_tribool_t {
    /// The device has not reported this.
    MXR_UNKNOWN,
    /// Reported, and false.
    MXR_FALSE,
    /// Reported, and true.
    MXR_TRUE,
}

impl mxr_tribool_t {
    pub open spec fn spec_from(value: Option<bool>) -> mxr_tribool_t {
        match value {
            None => mxr_tribool_t::MXR_UNKNOWN,
            Some(false) => mxr_tribool_t::MXR_FALSE,
            Some(true) => mxr_tribool_t::MXR_TRUE,
        }
    }

    /// The flag a reading carries: unknown when nothing was reported.
    pub fn from_option(value: Option<bool>) -> (t: mxr_tribool_t)
        ensures
            t == Self::spec_from(value),
    {
        match value {
            None => mxr_tribool_t::MXR_UNKNOWN,
            Some(false) => mxr_tribool_t::MXR_FALSE,
            Some(true) => mxr_tribool_t::MXR_TRUE,
        }
    }

    /// The integer C sees.
    pub fn code(self) -> (c: i8)
        ensures
            c == match self {
                mxr_tribool_t::MXR_UNKNOWN => -1i8,
                mxr_tribool_t::MXR_FALSE => 0i8,
                mxr_tribool_t::MXR_TRUE => 1i8,
            },
    {
        match self {
            mxr_tribool_t::MXR_UNKNOWN => -1,
            mxr_tribool_t::MXR_FALSE => 0,
            mxr_tribool_t::MXR_TRUE => 1,
        }
    }
}

/// The 16-byte identifier of a device on the network, as C holds it.
#[derive(Clone, Copy, Debug, PartialEq, Eq)]
pub struct mxr_uid_t {
    /// The raw identifier, in wire order.
    pub bytes: [u8; 16],
}

/// A single bay as C holds it: the device it is on, and its port there.
#[derive(Clone, Copy, Debug, PartialEq, Eq)]
pub struct mxr_bay_uid_t {
    /// The device the bay belongs to.
    pub device: mxr_uid_t,
    /// The bay's port number on that device.
    pub port: u16,
}

impl Default for mxr_uid_t {
    /// The empty identifier.
    fn default() -> (r: mxr_uid_t)
        ensures
            forall|i: int| 0 <= i < 16 ==> r.bytes[i] == 0u8,
    {
        mxr_uid_t { bytes: [0u8; 16] }
    }
}

impl Default for mxr_bay_uid_t {
    /// The empty identifier with port zero.
    fn default() -> (r: mxr_bay_uid_t)
        ensures
            forall|i: int| 0 <= i < 16 ==> r.device.bytes[i] == 0u8,
            r.port == 0,
    {
        mxr_bay_uid_t { device: mxr_uid_t { bytes: [0u8; 16] }, port: 0 }
    }
}

impl mxr_uid_t {
    /// The C shape of an identifier.
    pub fn from_uid(uid: DeviceUid) -> (r: mxr_uid_t)
        ensures
            r.bytes == uid.bytes,
    {
        mxr_uid_t { bytes: uid.bytes }
    }

    /// The identifier the C shape holds.
    pub fn to_uid(self) -> (r: DeviceUid)
        ensures
            r.bytes == self.bytes,
    {
        DeviceUid { bytes: self.bytes }
    }

    /// Whether this is the empty identifier, the protocol's "no device".
    pub fn is_zero(&self) -> (b: bool)
        ensures
            b == (forall|i: int| 0 <= i < 16 ==> self.bytes[i] == 0u8),
    {
        self.to_uid().is_zero()
    }
}

impl mxr_bay_uid_t {
    /// The C shape of a bay identifier.
    pub fn from_bay(bay: BayUid) -> (r: mxr_bay_uid_t)
        ensures
            r.device.bytes == bay.device.bytes,
            r.port == bay.port,
    {
        mxr_bay_uid_t { device: mxr_uid_t::from_uid(bay.device), port: bay.port }
    }

    /// The bay identifier the C shape holds.
    pub fn to_bay(self) -> (r: BayUid)
        ensures
            r.device.bytes == self.device.bytes,
            r.port == self.port,
    {
        BayUid { device: self.device.to_uid(), port: self.port }
    }
}

/// The bay a route names, where the zero device stands for "unrouted".
pub fn bay_or_zero(bay: Option<BayUid>) -> (r: mxr_bay_uid_t)
    ensures
        match bay {
            Some(b) => r.device.bytes == b.device.bytes && r.port == b.port,
            None => r.port == 0 && forall|i: int| 0 <= i < 16 ==> r.device.bytes[i] == 0u8,
        },
{
    match bay {
        Some(b) => mxr_bay_uid_t::from_bay(b),
        None => mxr_bay_uid_t::default(),
    }
}

/// The identifier a request names, where zero stands for "unaddressed": a
/// broadcast, or a request that addresses only its sender.
pub fn uid_or_zero(uid: Option<DeviceUid>) -> (r: mxr_uid_t)
    ensures
        match uid {
            Some(u) => r.bytes == u.bytes,
            None => forall|i: int| 0 <= i < 16 ==> r.bytes[i] == 0u8,
        },
{
    match uid {
        Some(u) => mxr_uid_t::from_uid(u),
        None => mxr_uid_t::default(),
    }
}

/// Why the last call on a thread failed. Each thread that calls in keeps one.
#[derive(Debug)]
pub struct LastError {
    /// The text `mxr_last_error()` hands back.
    pub text: String,
}

impl LastError {
    /// A slot that has recorded nothing.
    pub fn new() -> (r: LastError)
        ensures
            r.text@ == Seq::<char>::empty(),
    {
        LastError { text: String::new() }
    }
}

/// What a slot holds after recording `message`: the message itself, unless a
/// NUL inside it would cut it short in C, in which case a fixed notice.
pub open spec fn recorded_text(message: Seq<char>) -> Seq<char> {
    if message.contains('\0') {
        "error text contains a NUL"@
    } else {
        message
    }
}

/// Records why a call failed.
pub fn set_last_error(slot: &mut LastError, message: &str)
    ensures
        final(slot).text@ == recorded_text(message@),
{
    let n = message.unicode_len();
    let mut i: usize = 0;
    while i < n
        invariant
            i <= n,
            n == message@.len(),
            forall|j: int| 0 <= j < i ==> message@[j] != '\0',
        decreases n - i,
    {
        if message.get_char(i) == '\0' {
            slot.text = String::from_str("error text contains a NUL");
            return;
        }
        i = i + 1;
    }
    slot.text = String::from_str(message);
}

/// Reports a failure and returns its result code.
pub fn fail(slot: &mut LastError, code: mxr_result_t, message: &str) -> (r: mxr_result_t)
    ensures
        r == code,
        final(slot).text@ == recorded_text(message@),
{
    set_last_error(slot, message);
    code
}

/// The message a panic carried, for the two payload kinds `panic!` produces;
/// `None` is any other payload.
pub fn panic_text<'a>(payload: Option<&'a str>) -> (r: &'a str)
    ensures
        match payload {
            Some(s) => r@ == s@,
            None => r@ == "no message"@,
        },
{
    match payload {
        Some(s) => s,
        None => "no message",
    }
}

/// The result code for a send failure.
pub open spec fn spec_send_code(e: SendError) -> mxr_result_t {
    match e {
        SendError::ProtocolTooOld { .. } => mxr_result_t::MXR_ERR_PROTOCOL_TOO_OLD,
        SendError::NotConnected => mxr_result_t::MXR_ERR_NOT_CONNECTED,
        SendError::Io(_) => mxr_result_t::MXR_ERR_IO,
        SendError::UnknownOpcode { .. } => mxr_result_t::MXR_ERR_UNSUPPORTED,
    }
}

/// The result code for a control failure.
pub open spec fn spec_control_code(e: ControlError) -> mxr_result_t {
    match e {
        ControlError::UnknownDevice(_) => mxr_result_t::MXR_ERR_NOT_FOUND,
        ControlError::UnknownBay(_) => mxr_result_t::MXR_ERR_NOT_FOUND,
        ControlError::UnknownSource(_) => mxr_result_t::MXR_ERR_NOT_FOUND,
        ControlError::Unsupported(_) => mxr_result_t::MXR_ERR_UNSUPPORTED,
        ControlError::NotReported(_) => mxr_result_t::MXR_ERR_NOT_REPORTED,
        ControlError::Send(e) => spec_send_code(e),
    }
}

/// The result code for a send failure.
pub fn send_code(error: &SendError) -> (r: mxr_result_t)
    ensures
        r == spec_send_code(*error),
{
    match error {
        SendError::ProtocolTooOld { .. } => mxr_result_t::MXR_ERR_PROTOCOL_TOO_OLD,
        SendError::NotConnected => mxr_result_t::MXR_ERR_NOT_CONNECTED,
        SendError::Io(_) => mxr_result_t::MXR_ERR_IO,
        SendError::UnknownOpcode { .. } => mxr_result_t::MXR_ERR_UNSUPPORTED,
    }
}

/// Turns a control outcome into a result code, recording the failure's text.
pub fn from_control(slot: &mut LastError, result: Result<(), ControlError>) -> (r: mxr_result_t)
    ensures
        match result {
            Ok(()) => r == mxr_result_t::MXR_OK && final(slot).text@ == old(slot).text@,
            Err(e) => r == spec_control_code(e) && final(slot).text@ == recorded_text(
                control_error_text(e),
            ) && (e is UnknownSource ==> final(slot).text@ == control_error_text(e)),
        },
{
    let error = match result {
        Ok(()) => return mxr_result_t::MXR_OK,
        Err(e) => e,
    };
    let code = match &error {
        ControlError::UnknownDevice(_) => mxr_result_t::MXR_ERR_NOT_FOUND,
        ControlError::UnknownBay(_) => mxr_result_t::MXR_ERR_NOT_FOUND,
        ControlError::UnknownSource(_) => mxr_result_t::MXR_ERR_NOT_FOUND,
        ControlError::Unsupported(_) => mxr_result_t::MXR_ERR_UNSUPPORTED,
        ControlError::NotReported(_) => mxr_result_t::MXR_ERR_NOT_REPORTED,
        ControlError::Send(e) => send_code(e),
    };
    let message = error.message();
    fail(slot, code, message.as_str())
}

/// Turns a send outcome into a result code, recording the failure's text.
pub fn from_send(slot: &mut LastError, result: Result<(), SendError>) -> (r: mxr_result_t)
    ensures
        match result {
            Ok(()) => r == mxr_result_t::MXR_OK && final(slot).text@ == old(slot).text@,
            Err(e) => r == spec_send_code(e) && final(slot).text@ == recorded_text(
                send_error_text(e),
            ),
        },
{
    match result {
        Ok(()) => mxr_result_t::MXR_OK,
        Err(e) => {
            let message = e.message();
            fail(slot, send_code(&e), message.as_str())
        },
    }
}

/// Turns an I/O outcome, whose failure is the system's text, into a result
/// code.
pub fn from_io(slot: &mut LastError, result: Result<(), String>) -> (r: mxr_result_t)
    ensures
        match result {
            Ok(()) => r == mxr_result_t::MXR_OK && final(slot).text@ == old(slot).text@,
            Err(e) => r == mxr_result_t::MXR_ERR_IO && final(slot).text@ == recorded_text(e@),
        },
{
    match result {
        Ok(()) => mxr_result_t::MXR_OK,
        Err(e) => fail(slot, mxr_result_t::MXR_ERR_IO, e.as_str()),
    }
}

/// Reports an output pointer that was null.
pub fn null_out(slot: &mut LastError, what: &str) -> (r: mxr_result_t)
    ensures
        r == mxr_result_t::MXR_ERR_INVALID_ARGUMENT,
        final(slot).text@ == recorded_text("the "@ + what@ + " output pointer is null"@),
{
    let mut m = String::from_str("the ");
    m.append(what);
    m.append(" output pointer is null");
    fail(slot, mxr_result_t::MXR_ERR_INVALID_ARGUMENT, m.as_str())
}

/// Reports a device that has never been heard from.
pub fn not_heard_from(slot: &mut LastError, uid: mxr_uid_t) -> (r: mxr_result_t)
    ensures
        r == mxr_result_t::MXR_ERR_NOT_FOUND,
        final(slot).text@ == recorded_text("no device "@ + uid_text(uid.bytes@)),
{
    let mut m = String::from_str("no device ");
    m.append(uid.to_uid().to_text().as_str());
    fail(slot, mxr_result_t::MXR_ERR_NOT_FOUND, m.as_str())
}

/// Reports a null handle from a call whose answer is a count.
pub fn no_handle(slot: &mut LastError) -> (n: usize)
    ensures
        n == 0,
        final(slot).text@ == recorded_text("the client handle is null"@),
{
    fail(slot, mxr_result_t::MXR_ERR_INVALID_ARGUMENT, "the client handle is null");
    0
}

/// A string argument as C handed it over.
#[derive(Clone, Copy, Debug)]
pub enum CText<'a> {
    /// A null pointer.
    Null,
    /// A NUL-terminated string that is valid UTF-8.
    Utf8(&'a str),
    /// A NUL-terminated string that is not.
    NotUtf8,
}

/// Reads a caller's string, treating null as absent.
pub fn opt_str<'a>(slot: &mut LastError, arg: CText<'a>) -> (r: Result<Option<&'a str>, mxr_result_t>)
    ensures
        match arg {
            CText::Null => r == Ok::<Option<&str>, mxr_result_t>(None),
            CText::Utf8(s) => r == Ok::<Option<&str>, mxr_result_t>(Some(s)),
            CText::NotUtf8 => r == Err::<Option<&str>, mxr_result_t>(
                mxr_result_t::MXR_ERR_INVALID_ARGUMENT,
            ) && final(slot).text@ == recorded_text("string is not valid UTF-8"@),
        },
{
    match arg {
        CText::Null => Ok(None),
        CText::Utf8(s) => Ok(Some(s)),
        CText::NotUtf8 => Err(
            fail(slot, mxr_result_t::MXR_ERR_INVALID_ARGUMENT, "string is not valid UTF-8"),
        ),
    }
}

/// Reads a caller's string, where absence is not allowed.
pub fn req_str<'a>(slot: &mut LastError, arg: CText<'a>) -> (r: Result<&'a str, mxr_result_t>)
    ensures
        match arg {
            CText::Null => r == Err::<&str, mxr_result_t>(mxr_result_t::MXR_ERR_INVALID_ARGUMENT)
                && final(slot).text@ == recorded_text("a required string argument was null"@),
            CText::Utf8(s) => r == Ok::<&str, mxr_result_t>(s),
            CText::NotUtf8 => r == Err::<&str, mxr_result_t>(
                mxr_result_t::MXR_ERR_INVALID_ARGUMENT,
            ) && final(slot).text@ == recorded_text("string is not valid UTF-8"@),
        },
{
    match opt_str(slot, arg) {
        Ok(Some(s)) => Ok(s),
        Ok(None) => Err(
            fail(
                slot,
                mxr_result_t::MXR_ERR_INVALID_ARGUMENT,
                "a required string argument was null",
            ),
        ),
        Err(code) => Err(code),
    }
}

/// The largest character boundary of `bytes` at or below `e`.
pub open spec fn boundary_at_or_below(bytes: Seq<u8>, e: int) -> int
    decreases e,
{
    if e <= 0 {
        0
    } else if is_char_boundary(bytes, e) {
        e
    } else {
        boundary_at_or_below(bytes, e - 1)
    }
}

/// How many bytes of `bytes` a field `width` wide keeps: all it has room for
/// beside the terminator, cut back to a character boundary.
pub open spec fn fitted_len(bytes: Seq<u8>, width: int) -> int {
    let room = if width > 0 { width - 1 } else { 0 };
    boundary_at_or_below(bytes, if room < bytes.len() { room } else { bytes.len() as int })
}

/// A field `width` wide holding `bytes`: as much as fits, then NULs to the end.
pub open spec fn fitted(bytes: Seq<u8>, width: int) -> Seq<u8> {
    let end = fitted_len(bytes, width);
    bytes.take(end) + Seq::new((width - end) as nat, |i: int| 0u8)
}

pub proof fn lemma_boundary_bounds(bytes: Seq<u8>, e: int)
    ensures
        0 <= boundary_at_or_below(bytes, e),
        e >= 0 ==> boundary_at_or_below(bytes, e) <= e,
    decreases e,
{
    if e > 0 {
        lemma_boundary_bounds(bytes, e - 1);
    }
}

/// A field keeps its width, and ends in a NUL whatever the text: C can
/// always read it as a string.
pub proof fn lemma_field_is_terminated(bytes: Seq<u8>, width: int)
    requires
        width > 0,
    ensures
        fitted(bytes, width).len() == width,
        fitted(bytes, width)[width - 1] == 0u8,
{
    let room = width - 1;
    let e = if room < bytes.len() { room } else { bytes.len() as int };
    lemma_boundary_bounds(bytes, e);
}

/// Copies `text` into a fixed-width field, NUL-terminated and NUL-padded.
///
/// A field too narrow for the text truncates it on a character boundary
/// rather than failing: these are display names, and a caller would rather
/// have a shortened name than none.
pub fn put_str(dst: &mut [u8], text: &str)
    ensures
        final(dst)@ == fitted(text.spec_bytes(), old(dst)@.len() as int),
{
    let bytes = text.as_bytes();
    let width = dst.len();
    let room: usize = if width > 0 { width - 1 } else { 0 };
    let mut end: usize = if room < bytes.len() { room } else { bytes.len() };
    let ghost start = end;
    proof {
        lemma_boundary_bounds(bytes@, start as int);
    }
    while end > 0 && !text.is_char_boundary(end)
        invariant
            end <= start,
            boundary_at_or_below(bytes@, start as int) == boundary_at_or_below(bytes@, end as int),
            bytes@ == text.spec_bytes(),
        decreases end,
    {
        end = end - 1;
    }
    assert(end == boundary_at_or_below(bytes@, start as int));
    assert(end == fitted_len(bytes@, width as int));
    let mut i: usize = 0;
    while i < width
        invariant
            width == dst@.len(),
            end <= width || width == 0,
            end <= bytes@.len(),
            end == fitted_len(bytes@, width as int),
            i <= width,
            forall|j: int| 0 <= j < i ==> dst@[j] == fitted(bytes@, width as int)[j],
        decreases width - i,
    {
        if i < end {
            dst[i] = bytes[i];
        } else {
            dst[i] = 0;
        }
        i = i + 1;
    }
    assert(dst@ =~= fitted(bytes@, width as int));
}

/// Writes an identifier as text into a caller's buffer, which needs
/// [`MXR_UID_STRING_LEN`] bytes; a shorter buffer is refused untouched.
pub fn uid_to_string(slot: &mut LastError, uid: mxr_uid_t, dst: &mut [u8]) -> (r: mxr_result_t)
    ensures
        old(dst)@.len() < MXR_UID_STRING_LEN ==> r == mxr_result_t::MXR_ERR_INVALID_ARGUMENT
            && final(dst)@ == old(dst)@ && final(slot).text@ == recorded_text(
            "uid buffer is null or shorter than MXR_UID_STRING_LEN"@,
        ),
        old(dst)@.len() >= MXR_UID_STRING_LEN ==> r == mxr_result_t::MXR_OK
            && final(slot).text@ == old(slot).text@
            && final(dst)@ == ascii_bytes(uid_text(uid.bytes@)) + Seq::new(
            (old(dst)@.len() - 35) as nat,
            |i: int| 0u8,
        ),
{
    if dst.len() < MXR_UID_STRING_LEN {
        return fail(
            slot,
            mxr_result_t::MXR_ERR_INVALID_ARGUMENT,
            "uid buffer is null or shorter than MXR_UID_STRING_LEN",
        );
    }
    let text = uid.to_uid().to_text();
    let ghost width = dst@.len();
    proof {
        lemma_uid_text_ascii(uid.bytes@);
    }
    put_str(dst, text.as_str());
    proof {
        assert(fitted_len(ascii_bytes(text@), width as int) == 35);
        assert(ascii_bytes(text@).take(35) =~= ascii_bytes(text@));
    }
    mxr_result_t::MXR_OK
}

/// The bytes of an ASCII text.
pub open spec fn ascii_bytes(s: Seq<char>) -> Seq<u8> {
    Seq::new(s.len(), |i: int| s[i] as u8)
}

/// An identifier's text is ASCII, so its bytes are its characters.
proof fn lemma_uid_text_ascii(bytes: Seq<u8>)
    requires
        bytes.len() == 16,
    ensures
        encode_utf8(uid_text(bytes)) == ascii_bytes(uid_text(bytes)),
        is_char_boundary(encode_utf8(uid_text(bytes)), 35),
{
    let t = uid_text(bytes);
    assert forall|i: int| 0 <= i < t.len() implies '\0' <= #[trigger] t[i] <= '\u{7f}' by {
        if !is_separator_pos(i) {
            let b = bytes[byte_at_pos(i)] as int;
            assert(0 <= b / 16 < 16);
            assert(0 <= b % 16 < 16);
        }
    }
    assert(is_ascii_chars(t));
    is_ascii_chars_encode_utf8(t);
    assert(encode_utf8(t) =~= ascii_bytes(t));
    encode_utf8_valid_utf8(t);
    is_char_boundary_start_end_of_seq(encode_utf8(t));
}

/// Reads an identifier from a caller's text, refusing what is not one.
pub fn uid_from_string(slot: &mut LastError, text: CText) -> (r: Result<mxr_uid_t, mxr_result_t>)
    ensures
        match text {
            CText::Utf8(s) => match parse_uid_text(s@) {
                Some(bytes) => r matches Ok(u) && u.bytes@ == bytes,
                None => r == Err::<mxr_uid_t, mxr_result_t>(mxr_result_t::MXR_ERR_INVALID_ARGUMENT)
                    && final(slot).text@ == recorded_text(uid_error_prefix() + s@),
            },
            _ => r == Err::<mxr_uid_t, mxr_result_t>(mxr_result_t::MXR_ERR_INVALID_ARGUMENT),
        },
{
    let text = match req_str(slot, text) {
        Ok(s) => s,
        Err(code) => return Err(code),
    };
    match DeviceUid::parse(text) {
        Ok(uid) => Ok(mxr_uid_t::from_uid(uid)),
        Err(e) => {
            let m = e.message();
            Err(fail(slot, mxr_result_t::MXR_ERR_INVALID_ARGUMENT, m.as_str()))
        },
    }
}

} // verus!
