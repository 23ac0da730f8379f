//! Why a send or a control call did nothing, and the text that says so.

use vstd::prelude::*;

use crate::ident::{bay_text, uid_text, BayUid, DeviceUid};
use crate::text::{debug_text, decimal_text, lemma_no_nul_join, push_decimal, str_debug};

verus! {

/// Why a frame was not sent.
#[derive(Clone, Debug, PartialEq, Eq)]
pub enum SendError {
    /// The addressee speaks a protocol older than the opcode needs, so it
    /// would drop the frame without answering.
    ProtocolTooOld {
        /// The addressee's serial number.
        serial: String,
        /// The highest protocol version the addressee reported.
        supported: u16,
        /// The version the opcode needs.
        required: u16,
    },
    /// The client has no socket, because it was never started or was closed.
    NotConnected,
    /// The socket write failed; the text is the operating system's.
    Io(String),
    /// The opcode is not one this library knows a protocol floor for.
    UnknownOpcode {
        /// The opcode that was refused.
        opcode: u16,
    },
}

/// Why a control method did nothing.
#[derive(Clone, Debug, PartialEq, Eq)]
pub enum ControlError {
    /// No device with this identifier has been heard from.
    UnknownDevice(DeviceUid),
    /// The device has reported no bay on this port.
    UnknownBay(BayUid),
    /// No input bay on the device carries this user-assigned name.
    UnknownSource(String),
    /// The addressee does not do what was asked of it.
    Unsupported(&'static str),
    /// The device has not reported something the request is assembled from.
    ///
    /// Unlike [`ControlError::Unsupported`], the same call may succeed once it
    /// has: this says the value is missing, not that it cannot exist.
    NotReported(&'static str),
    /// The frame could not be sent.
    Send(SendError),
}

impl SendError {
    /// What went wrong, as text for a caller to show.
    pub fn message(&self) -> (m: String)
        ensures
            m@ == send_error_text(*self),
    {
        match self {
            SendError::ProtocolTooOld { serial, supported, required } => {
                let mut m = String::from_str(serial.as_str());
                m.append(" supports protocol ");
                push_decimal(&mut m, *supported as u64);
                m.append(", and the command needs ");
                push_decimal(&mut m, *required as u64);
                m
            },
            SendError::NotConnected => String::from_str("the client has no socket"),
            SendError::Io(text) => String::from_str(text.as_str()),
            SendError::UnknownOpcode { opcode } => {
                let mut m = String::from_str("no protocol floor is known for opcode ");
                push_decimal(&mut m, *opcode as u64);
                m
            },
        }
    }
}

/// The text of a send failure.
pub open spec fn send_error_text(e: SendError) -> Seq<char> {
    match e {
        SendError::ProtocolTooOld { serial, supported, required } => serial@
            + " supports protocol "@ + decimal_text(supported as nat)
            + ", and the command needs "@ + decimal_text(required as nat),
        SendError::NotConnected => "the client has no socket"@,
        SendError::Io(text) => text@,
        SendError::UnknownOpcode { opcode } => "no protocol floor is known for opcode "@
            + decimal_text(opcode as nat),
    }
}

/// The text of a control failure.
pub open spec fn control_error_text(e: ControlError) -> Seq<char> {
    match e {
        ControlError::UnknownDevice(uid) => "no device "@ + uid_text(uid.bytes@),
        ControlError::UnknownBay(bay) => "no bay "@ + bay_text(bay),
        ControlError::UnknownSource(name) => "no source named "@ + str_debug(name@),
        ControlError::Unsupported(what) => what@,
        ControlError::NotReported(what) => what@ + " has not been reported"@,
        ControlError::Send(e) => send_error_text(e),
    }
}

impl ControlError {
    /// What went wrong, as text for a caller to show.
    pub fn message(&self) -> (m: String)
        ensures
            m@ == control_error_text(*self),
            *self is UnknownSource ==> !m@.contains('\0'),
    {
        match self {
            ControlError::UnknownDevice(uid) => {
                let mut m = String::from_str("no device ");
                m.append(uid.to_text().as_str());
                m
            },
            ControlError::UnknownBay(bay) => {
                let mut m = String::from_str("no bay ");
                m.append(bay.to_text().as_str());
                m
            },
            ControlError::UnknownSource(name) => {
                let mut m = String::from_str("no source named ");
                let quoted = debug_text(name.as_str());
                proof {
                    reveal_strlit("no source named ");
                    assert(!"no source named "@.contains('\0'));
                    lemma_no_nul_join("no source named "@, quoted@);
                }
                m.append(quoted.as_str());
                m
            },
            ControlError::Unsupported(what) => String::from_str(what),
            ControlError::NotReported(what) => {
                let mut m = String::from_str(what);
                m.append(" has not been reported");
                m
            },
            ControlError::Send(e) => e.message(),
        }
    }

    /// Wraps a send failure.
    pub fn from_send(e: SendError) -> (r: ControlError)
        ensures
            r == ControlError::Send(e),
    {
        ControlError::Send(e)
    }

    /// The send failure behind this one, if it is one.
    pub fn source(&self) -> (r: Option<&SendError>)
        ensures
            match self {
                ControlError::Send(e) => r == Some(e),
                _ => r is None,
            },
    {
        match self {
            ControlError::Send(e) => Some(e),
            _ => None,
        }
    }
}

} // verus!
