//! How a client finds the network: the configuration a caller gives, read
//! from the strings C hands over, and the address and port it comes to.

use vstd::prelude::*;
use vstd::utf8::encode_utf8;

use crate::abi::{
    fail, fitted, opt_str, put_str, recorded_text, CText, LastError, mxr_result_t,
};
use crate::cabi::MXR_IP_STRING_LEN;
use crate::ident::{parse_uid_text, uid_error_prefix, DeviceUid};
use crate::net::{parse_ipv4_text, ipv4_text, Ipv4};
use crate::text::{debug_text, lemma_no_nul_join, str_debug};

verus! {

/// The name a client advertises when it is given none.
pub open spec fn default_name() -> Seq<char> {
    "MXR Rust"@
}

/// How a client finds the network.
#[derive(Clone, Debug)]
pub struct Config {
    /// Where to send; unset means the multicast group, or the interface's
    /// broadcast address in broadcast mode.
    pub target_ip: Option<Ipv4>,
    /// UDP port; unset means the default for the mode.
    pub port: Option<u16>,
    /// Selects the interface by address.
    pub local_ip: Option<Ipv4>,
    /// Selects the interface by name, before `local_ip`.
    pub interface: Option<String>,
    /// Use broadcast rather than multicast.
    pub broadcast: bool,
    /// The name this client advertises.
    pub name: Option<String>,
    /// This client's identifier; unset loads it from `uid_path`.
    pub uid: Option<DeviceUid>,
    /// Where the identifier is kept.
    pub uid_path: Option<String>,
}

impl Config {
    /// Multicast discovery on whichever interface the host picks, under a
    /// name and identifier of the library's own.
    pub fn new() -> (c: Config)
        ensures
            c.target_ip is None && c.port is None && c.local_ip is None,
            c.interface is None && c.name is None && c.uid is None && c.uid_path is None,
            !c.broadcast,
    {
        Config {
            target_ip: None,
            port: None,
            local_ip: None,
            interface: None,
            broadcast: false,
            name: None,
            uid: None,
            uid_path: None,
        }
    }

    /// The name the client advertises: the one given, else the default.
    pub fn client_name(&self) -> (n: String)
        ensures
            n@ == match self.name {
                Some(s) => s@,
                None => default_name(),
            },
    {
        match &self.name {
            Some(s) => s.clone(),
            None => {
                let d = "MXR Rust";
                proof {
                    reveal_strlit("MXR Rust");
                }
                String::from_str(d)
            },
        }
    }
}

/// The configuration as C passes it, each string already read.
#[derive(Clone, Copy, Debug)]
pub struct ConfigText<'a> {
    pub target_ip: CText<'a>,
    /// Zero means the default for the mode.
    pub port: u16,
    pub broadcast: bool,
    pub local_ip: CText<'a>,
    pub interface: CText<'a>,
    pub name: CText<'a>,
    pub uid: CText<'a>,
    pub uid_path: CText<'a>,
}

/// The message for an argument that is not an address.
pub open spec fn not_an_address(what: Seq<char>, text: Seq<char>) -> Seq<char> {
    what + " is not an IPv4 address: "@ + str_debug(text)
}

/// Whether an address argument can be read: absent, or an address.
pub open spec fn ip_arg_ok(t: CText) -> bool {
    match t {
        CText::Null => true,
        CText::Utf8(s) => parse_ipv4_text(s@) is Some,
        CText::NotUtf8 => false,
    }
}

/// The address an argument that can be read gives.
pub open spec fn ip_arg(t: CText) -> Option<Ipv4> {
    match t {
        CText::Utf8(s) => parse_ipv4_text(s@),
        _ => None,
    }
}

/// Why an address argument cannot be read.
pub open spec fn ip_arg_error(t: CText, what: Seq<char>) -> Seq<char> {
    match t {
        CText::Utf8(s) => not_an_address(what, s@),
        _ => "string is not valid UTF-8"@,
    }
}

/// Reads an address argument, where null means "not set".
pub fn opt_ip(slot: &mut LastError, arg: CText, what: &str) -> (r: Result<Option<Ipv4>, mxr_result_t>)
    ensures
        ip_arg_ok(arg) ==> r == Ok::<Option<Ipv4>, mxr_result_t>(ip_arg(arg)),
        !ip_arg_ok(arg) ==> r == Err::<Option<Ipv4>, mxr_result_t>(
            mxr_result_t::MXR_ERR_INVALID_ARGUMENT,
        ) && final(slot).text@ == recorded_text(ip_arg_error(arg, what@)),
        !ip_arg_ok(arg) && !what@.contains('\0') ==> final(slot).text@ == ip_arg_error(arg, what@),
{
    let text = match opt_str(slot, arg) {
        Ok(Some(s)) => s,
        Ok(None) => return Ok(None),
        Err(code) => {
            proof {
                reveal_strlit("string is not valid UTF-8");
                assert(!"string is not valid UTF-8"@.contains('\0'));
            }
            return Err(code);
        },
    };
    match Ipv4::parse(text) {
        Some(ip) => Ok(Some(ip)),
        None => {
            let mut message = String::from_str(what);
            let middle = " is not an IPv4 address: ";
            proof {
                reveal_strlit(" is not an IPv4 address: ");
            }
            message.append(middle);
            let quoted = debug_text(text);
            message.append(quoted.as_str());
            proof {
                if !what@.contains('\0') {
                    assert(!middle@.contains('\0'));
                    lemma_no_nul_join(what@, middle@);
                    lemma_no_nul_join(what@ + middle@, quoted@);
                }
            }
            Err(fail(slot, mxr_result_t::MXR_ERR_INVALID_ARGUMENT, message.as_str()))
        },
    }
}

/// The text an argument carries, when it carries one.
pub open spec fn arg_text(t: CText) -> Option<Seq<char>> {
    match t {
        CText::Utf8(s) => Some(s@),
        _ => None,
    }
}

/// The text an optional string holds.
pub open spec fn opt_view(o: Option<String>) -> Option<Seq<char>> {
    match o {
        Some(s) => Some(s@),
        None => None,
    }
}

/// Whether an identifier argument can be read: absent, or an identifier.
pub open spec fn uid_arg_ok(t: CText) -> bool {
    match t {
        CText::Utf8(s) => parse_uid_text(s@) is Some,
        CText::Null => true,
        CText::NotUtf8 => false,
    }
}

/// Whether every argument of `c` can be read.
pub open spec fn config_ok(c: ConfigText) -> bool {
    &&& ip_arg_ok(c.target_ip)
    &&& ip_arg_ok(c.local_ip)
    &&& !(c.interface is NotUtf8)
    &&& !(c.name is NotUtf8)
    &&& uid_arg_ok(c.uid)
    &&& !(c.uid_path is NotUtf8)
}

/// Why `c` cannot be read: the first argument, in field order, that cannot.
pub open spec fn config_error(c: ConfigText) -> Seq<char> {
    if !ip_arg_ok(c.target_ip) {
        ip_arg_error(c.target_ip, "target_ip"@)
    } else if !ip_arg_ok(c.local_ip) {
        ip_arg_error(c.local_ip, "local_ip"@)
    } else if c.interface is NotUtf8 || c.name is NotUtf8 || c.uid is NotUtf8
        || c.uid_path is NotUtf8 {
        "string is not valid UTF-8"@
    } else {
        uid_error_prefix() + arg_text(c.uid)->0
    }
}

/// Builds a configuration from the caller's.
pub fn to_config(slot: &mut LastError, c: &ConfigText) -> (r: Result<Config, mxr_result_t>)
    ensures
        r is Ok <==> config_ok(*c),
        r matches Ok(cfg) ==> {
            &&& cfg.target_ip == ip_arg(c.target_ip)
            &&& cfg.port == (if c.port != 0 {
                Some(c.port)
            } else {
                None
            })
            &&& cfg.local_ip == ip_arg(c.local_ip)
            &&& opt_view(cfg.interface) == arg_text(c.interface)
            &&& cfg.broadcast == c.broadcast
            &&& opt_view(cfg.name) == arg_text(c.name)
            &&& opt_view(cfg.uid_path) == arg_text(c.uid_path)
            &&& match c.uid {
                CText::Utf8(s) => cfg.uid matches Some(u) && Some(u.bytes@) == parse_uid_text(s@),
                _ => cfg.uid is None,
            }
        },
        r matches Err(code) ==> code == mxr_result_t::MXR_ERR_INVALID_ARGUMENT
            && final(slot).text@ == recorded_text(config_error(*c)),
        !ip_arg_ok(c.target_ip) || !ip_arg_ok(c.local_ip) || c.interface is NotUtf8
            || c.name is NotUtf8 || c.uid is NotUtf8 || c.uid_path is NotUtf8
            ==> final(slot).text@ == config_error(*c),
{
    proof {
        reveal_strlit("target_ip");
        reveal_strlit("local_ip");
        reveal_strlit("string is not valid UTF-8");
        assert(!"target_ip"@.contains('\0'));
        assert(!"local_ip"@.contains('\0'));
        assert(!"string is not valid UTF-8"@.contains('\0'));
    }
    let target_ip = opt_ip(slot, c.target_ip, "target_ip")?;
    let local_ip = opt_ip(slot, c.local_ip, "local_ip")?;
    let interface = opt_str(slot, c.interface)?;
    let name = opt_str(slot, c.name)?;
    let uid_text = opt_str(slot, c.uid)?;
    let uid_path = opt_str(slot, c.uid_path)?;
    let uid = match uid_text {
        Some(text) => match DeviceUid::parse(text) {
            Ok(uid) => Some(uid),
            Err(e) => {
                let message = e.message();
                return Err(fail(slot, mxr_result_t::MXR_ERR_INVALID_ARGUMENT, message.as_str()));
            },
        },
        None => None,
    };
    Ok(
        Config {
            target_ip,
            port: if c.port != 0 {
                Some(c.port)
            } else {
                None
            },
            local_ip,
            interface: match interface {
                Some(s) => Some(String::from_str(s)),
                None => None,
            },
            broadcast: c.broadcast,
            name: match name {
                Some(s) => Some(String::from_str(s)),
                None => None,
            },
            uid,
            uid_path: match uid_path {
                Some(s) => Some(String::from_str(s)),
                None => None,
            },
        },
    )
}

/// The network parameters a socket is opened with, kept so that it can be
/// reopened.
#[derive(Clone, Debug)]
pub struct Network {
    pub target_ip: Option<Ipv4>,
    pub port: Option<u16>,
    pub local_ip: Option<Ipv4>,
    pub interface: Option<String>,
    pub broadcast: bool,
}

impl Network {
    /// The parameters a configuration asks for.
    pub fn of(c: &Config) -> (n: Network)
        ensures
            n.target_ip == c.target_ip,
            n.port == c.port,
            n.local_ip == c.local_ip,
            opt_view(n.interface) == opt_view(c.interface),
            n.broadcast == c.broadcast,
    {
        Network {
            target_ip: c.target_ip,
            port: c.port,
            local_ip: c.local_ip,
            interface: match &c.interface {
                Some(s) => Some(s.clone()),
                None => None,
            },
            broadcast: c.broadcast,
        }
    }

    /// The address to send to: the one asked for, else the multicast group,
    /// else, in broadcast mode, the interface's own broadcast address when it
    /// has one.
    pub fn target(&self, multicast: Ipv4, interface_broadcast: Option<Ipv4>) -> (ip: Ipv4)
        ensures
            ip == match self.target_ip {
                Some(t) => t,
                None => if !self.broadcast {
                    multicast
                } else {
                    match interface_broadcast {
                        Some(b) => b,
                        None => multicast,
                    }
                },
            },
    {
        if let Some(ip) = self.target_ip {
            return ip;
        }
        if !self.broadcast {
            return multicast;
        }
        match interface_broadcast {
            Some(b) => b,
            None => multicast,
        }
    }

    /// The port to send to: the one asked for, else the mode's own.
    pub fn port(&self, multicast_port: u16, broadcast_port: u16) -> (p: u16)
        ensures
            p == match self.port {
                Some(q) => q,
                None => if self.broadcast {
                    broadcast_port
                } else {
                    multicast_port
                },
            },
    {
        match self.port {
            Some(q) => q,
            None => if self.broadcast {
                broadcast_port
            } else {
                multicast_port
            },
        }
    }

    /// Takes on a new interface and mode, saying whether either changed and
    /// the socket must be reopened.
    pub fn reconfigure(&mut self, local_ip: Option<Ipv4>, broadcast: bool) -> (changed: bool)
        ensures
            changed == !(old(self).local_ip == local_ip && old(self).broadcast == broadcast),
            final(self).local_ip == local_ip,
            final(self).broadcast == broadcast,
            final(self).target_ip == old(self).target_ip,
            final(self).port == old(self).port,
            final(self).interface == old(self).interface,
    {
        if self.local_ip == local_ip && self.broadcast == broadcast {
            return false;
        }
        self.local_ip = local_ip;
        self.broadcast = broadcast;
        true
    }
}

/// Reports the address a client sends to into a caller's buffers: refused
/// before the client has a socket, and refused when an address buffer is
/// given that is shorter than [`MXR_IP_STRING_LEN`]. The port comes back for
/// the caller to store.
pub fn remote_target(
    slot: &mut LastError,
    target: Option<(Ipv4, u16)>,
    ip: &mut [u8],
    ip_wanted: bool,
) -> (r: (mxr_result_t, Option<u16>))
    ensures
        match target {
            None => r == (mxr_result_t::MXR_ERR_NOT_CONNECTED, None::<u16>) && final(ip)@ == old(
                ip,
            )@ && final(slot).text@ == recorded_text("the client has no socket"@),
            Some((addr, port)) => if ip_wanted && old(ip)@.len() < MXR_IP_STRING_LEN {
                r == (mxr_result_t::MXR_ERR_INVALID_ARGUMENT, None::<u16>) && final(ip)@ == old(
                    ip,
                )@ && final(slot).text@ == recorded_text(
                    "address buffer is shorter than MXR_IP_STRING_LEN"@,
                )
            } else {
                &&& r == (mxr_result_t::MXR_OK, Some(port))
                &&& ip_wanted ==> final(ip)@ == fitted(
                    encode_utf8(ipv4_text(addr)),
                    old(ip)@.len() as int,
                )
                &&& !ip_wanted ==> final(ip)@ == old(ip)@
            },
        },
{
    match target {
        None => (fail(slot, mxr_result_t::MXR_ERR_NOT_CONNECTED, "the client has no socket"), None),
        Some((addr, port)) => {
            if ip_wanted {
                if ip.len() < MXR_IP_STRING_LEN {
                    return (
                        fail(
                            slot,
                            mxr_result_t::MXR_ERR_INVALID_ARGUMENT,
                            "address buffer is shorter than MXR_IP_STRING_LEN",
                        ),
                        None,
                    );
                }
                let text = addr.to_text();
                put_str(ip, text.as_str());
            }
            (mxr_result_t::MXR_OK, Some(port))
        },
    }
}

/// The identifier a stored file holds: its first sixteen bytes, when it has
/// that many.
pub fn uid_from_stored(bytes: &[u8]) -> (r: Option<DeviceUid>)
    ensures
        bytes@.len() >= 16 <==> r is Some,
        r matches Some(u) ==> u.bytes@ == bytes@.take(16),
{
    if bytes.len() < 16 {
        return None;
    }
    let mut out = [0u8; 16];
    let mut i: usize = 0;
    while i < 16
        invariant
            i <= 16,
            bytes@.len() >= 16,
            forall|j: int| 0 <= j < i ==> out[j] == bytes@[j],
        decreases 16 - i,
    {
        out[i] = bytes[i];
        i = i + 1;
    }
    let uid = DeviceUid::from_array(out);
    assert(uid.bytes@ =~= bytes@.take(16));
    Some(uid)
}

} // verus!
