//! The control surface: what a caller can ask a device to do.
//!
//! Every command has the same shape. It reads the registry to decide what to
//! send ([`Command`]), the frame is sent, and only once it is away does the
//! registry take on what the device will have done ([`complete`]). A frame
//! that was refused asked for nothing, so it changes nothing.

use vstd::prelude::*;
use vstd::string::StringSliceAdditionalSpecFns;
use vstd::utf8::{
    decode_utf8, encode_utf8, encode_utf8_decode_utf8, encode_utf8_valid_utf8, is_char_boundary,
    valid_utf8,
};

use crate::abi::{boundary_at_or_below, lemma_boundary_bounds};
use crate::bits::MXR_FEATURE_MULTIVIEWER;
use crate::error::{ControlError, SendError};
use crate::ident::{BayUid, DeviceUid};
use crate::net::Ipv4;
use crate::registry::{
    first_bay, first_device, has_any, lemma_first_bay_unique, lemma_write_back_keeps_well_formed, has_bay, has_device, is_first_bay, spec_has_volume_control,
    spec_is_output, spec_is_v2ip_sink, spec_user_name, spec_volume_bay, written_back, Bay, Device,
    State, WriteBack,
};
use crate::types::{
    combined_volume, AmpZoneSettings, EdidProfile, EdidRequest, KeyTransmitRequest, MultiviewerByte, RcKey, PowerStatus, RcAction,
    V2ipAudioFormat, V2ipStreamSources, VolumeMuteStatus,
};

verus! {

/// Where a frame goes.
#[derive(Clone, Debug, PartialEq, Eq)]
pub enum Addressee {
    /// Every device on the network.
    Broadcast,
    /// One device, with what the protocol gate needs to know of it.
    Device { uid: DeviceUid, serial: String, supported_protocol: u16 },
}

impl Addressee {
    /// Addresses one device.
    pub fn device(d: &Device) -> (a: Addressee)
        ensures
            a == (Addressee::Device {
                uid: d.uid,
                serial: d.serial,
                supported_protocol: d.supported_protocol,
            }),
    {
        Addressee::Device {
            uid: d.uid,
            serial: d.serial.clone(),
            supported_protocol: d.supported_protocol,
        }
    }
}

/// Whether the protocol gate lets a frame whose opcode needs protocol `floor`
/// through to `to`: a broadcast always, a device that has not said which
/// version it speaks always (not knowing is not knowing it is too old), and
/// any other device only when it reported at least `floor`.
pub open spec fn passes_gate(to: Addressee, floor: u16) -> bool {
    match to {
        Addressee::Broadcast => true,
        Addressee::Device { supported_protocol, .. } => supported_protocol == 0
            || supported_protocol >= floor,
    }
}

/// The protocol gate every send passes.
pub fn check_floor(to: &Addressee, floor: u16) -> (r: Result<(), SendError>)
    ensures
        passes_gate(*to, floor) ==> r is Ok,
        !passes_gate(*to, floor) ==> match *to {
            Addressee::Device { serial, supported_protocol, .. } => r == Err::<(), SendError>(
                SendError::ProtocolTooOld { serial, supported: supported_protocol, required: floor },
            ),
            Addressee::Broadcast => false,
        },
{
    match to {
        Addressee::Broadcast => Ok(()),
        Addressee::Device { serial, supported_protocol, .. } => {
            if *supported_protocol != 0 && *supported_protocol < floor {
                Err(
                    SendError::ProtocolTooOld {
                        serial: serial.clone(),
                        supported: *supported_protocol,
                        required: floor,
                    },
                )
            } else {
                Ok(())
            }
        },
    }
}

/// Which audio-endpoint setting a command changes.
#[derive(Clone, Copy, Debug, PartialEq, Eq, Structural)]
pub enum AudioEndpointSetting {
    Mute,
    Trigger,
    Volume,
}

/// What a command asks of its addressee, field by field; the wire layer
/// turns it into bytes.
#[derive(Clone, Debug, PartialEq, Eq)]
pub enum Request {
    /// Switch a sink's video and audio groups; the unset address keeps the
    /// stream the sink has.
    SourceSwitch { target: DeviceUid, video: Ipv4, audio: Ipv4 },
    /// Route a sink's audio to a group directly. An unset port is the
    /// standard V2IP audio port.
    ManualAudioSwitch {
        target: DeviceUid,
        audio: Ipv4,
        audio_port: Option<u16>,
        format: Option<V2ipAudioFormat>,
    },
    /// Rename a bay.
    SetBayName { target: DeviceUid, port: u16, name: String },
    /// Hide or show a bay.
    BayHide { target: DeviceUid, port: u16, hidden: bool },
    /// Switch an input's EDID profile.
    SetEdidProfile { target: DeviceUid, profile: EdidProfile },
    /// Perform a remote-control action on what is attached to a bay.
    Action { target: DeviceUid, port: u16, action: RcAction },
    /// Power what is attached to a bay on or off.
    Power { target: DeviceUid, port: u16, on: bool },
    /// Set a bay's volume and mute.
    SetVolume { target: DeviceUid, port: u16, volume: VolumeMuteStatus },
    /// Apply amplifier settings to a zone.
    AmpZoneSettings { target: DeviceUid, port: u16, settings: AmpZoneSettings },
    /// Change one setting of an audio endpoint.
    AudioEndpoint { setting: AudioEndpointSetting, target: DeviceUid, endpoint: u16, value: u32 },
    /// Route a source endpoint on one device to a sink endpoint on another.
    AudioSelectInput { sink: DeviceUid, sink_endpoint: u16, source: DeviceUid, source_endpoint: u16 },
    /// Start or stop statistics reports.
    StatsRequest { target: DeviceUid, subscribe: bool },
    /// Reboot.
    Reboot { target: DeviceUid },
    /// Ask every peer to report its monitoring data now.
    MonitoringPulse,
    /// A multiviewer command, already laid out as bytes.
    Multiviewer { payload: Vec<u8> },
    /// Ask for signal reports: the payload names the one unit asked, or is
    /// empty for every unit on the network.
    SignalStatus { payload: Vec<u8> },
    /// Ask a device for the EDID of its output or its input.
    Edid(EdidRequest),
    /// Send a remote-control key on a bay, numbered as the device numbers it.
    Key(KeyTransmitRequest),
}

/// One command: where it goes, what it asks, and what the addressee will do
/// with it.
#[derive(Clone, Debug)]
pub struct Command {
    pub to: Addressee,
    pub request: Request,
    pub write_back: Option<WriteBack>,
}

impl Command {
    /// A command with nothing to write back.
    pub fn new(to: Addressee, request: Request) -> (c: Command)
        ensures
            c.to == to,
            c.request == request,
            c.write_back is None,
    {
        Command { to, request, write_back: None }
    }

    /// Records what to apply locally once the frame is away.
    pub fn then(self, w: WriteBack) -> (c: Command)
        ensures
            c.to == self.to,
            c.request == self.request,
            c.write_back == Some(w),
    {
        Command { to: self.to, request: self.request, write_back: Some(w) }
    }
}

/// Finishes a command once its frame was sent or refused: the write-back runs
/// only when the frame got away.
pub fn complete(state: &mut State, command: Command, sent: Result<usize, SendError>) -> (r: Result<
    (),
    ControlError,
>)
    ensures
        match sent {
            Ok(_) => r is Ok && (command.write_back is None ==> final(state).devices@ == old(
                state,
            ).devices@),
            Err(e) => r == Err::<(), ControlError>(ControlError::Send(e))
                && final(state).devices@ == old(state).devices@,
        },
        final(state).frames_received == old(state).frames_received,
        sent is Ok && command.write_back is Some ==> written_back(
            *old(state),
            *final(state),
            command.write_back->0,
        ),
        old(state).well_formed() ==> final(state).well_formed(),
{
    let ghost before = *state;
    match sent {
        Err(e) => Err(ControlError::Send(e)),
        Ok(_) => {
            match command.write_back {
                Some(w) => {
                    state.write_back(w);
                    proof {
                        if before.well_formed() {
                            lemma_write_back_keeps_well_formed(before, *state, w);
                        }
                    }
                },
                None => {},
            }
            Ok(())
        },
    }
}

/// The device `uid`, or that it has not been heard from.
pub open spec fn spec_device_of(s: State, uid: DeviceUid) -> Result<Device, ControlError> {
    if has_device(s.devices@, uid) {
        Ok(s.devices@[first_device(s.devices@, uid)])
    } else {
        Err(ControlError::UnknownDevice(uid))
    }
}

/// The bay `uid` and its device, or which of the two is missing.
pub open spec fn spec_bay_of(s: State, uid: BayUid) -> Result<(Device, Bay), ControlError> {
    match s.locate_bay_spec(uid) {
        Some((i, j)) => Ok((s.devices@[i], s.devices@[i].bays@[j])),
        None => if !has_device(s.devices@, uid.device) {
            Err(ControlError::UnknownDevice(uid.device))
        } else {
            Err(ControlError::UnknownBay(uid))
        },
    }
}

/// The addressee a command to `d` carries.
pub open spec fn spec_addressee(d: Device) -> Addressee {
    Addressee::Device { uid: d.uid, serial: d.serial, supported_protocol: d.supported_protocol }
}

/// Looks a device up.
pub fn device_of(state: &State, uid: DeviceUid) -> (r: Result<&Device, ControlError>)
    ensures
        match r {
            Ok(d) => spec_device_of(*state, uid) == Ok::<Device, ControlError>(*d),
            Err(e) => spec_device_of(*state, uid) == Err::<Device, ControlError>(e),
        },
{
    match state.locate_device(uid) {
        Some(i) => Ok(&state.devices[i]),
        None => Err(ControlError::UnknownDevice(uid)),
    }
}

/// Looks a bay up, with the device it is on.
pub fn bay_of(state: &State, uid: BayUid) -> (r: Result<(&Device, &Bay), ControlError>)
    ensures
        match r {
            Ok((d, b)) => spec_bay_of(*state, uid) == Ok::<(Device, Bay), ControlError>((*d, *b)),
            Err(e) => spec_bay_of(*state, uid) == Err::<(Device, Bay), ControlError>(e),
        },
{
    match state.locate_bay(uid) {
        Some((i, j)) => Ok((&state.devices[i], &state.devices[i].bays[j])),
        None => {
            match state.locate_device(uid.device) {
                None => Err(ControlError::UnknownDevice(uid.device)),
                Some(_) => Err(ControlError::UnknownBay(uid)),
            }
        },
    }
}

/// The streams a device advertises for bay `b`: the entry of its V2IP
/// sources report at the bay's number.
pub open spec fn spec_source_for(d: Device, b: Bay) -> Option<V2ipStreamSources> {
    match d.v2ip_sources {
        Some(list) => if (b.bay_num as int) < list@.len() {
            Some(list@[b.bay_num as int])
        } else {
            None
        },
        None => None,
    }
}

/// The streams the source bay on `port` advertises, or why there are none.
pub open spec fn spec_source_streams(d: Device, port: u16) -> Result<V2ipStreamSources, ControlError> {
    if !has_bay(d.bays@, port) {
        Err(ControlError::UnknownBay(BayUid { device: d.uid, port }))
    } else {
        match spec_source_for(d, d.bays@[first_bay(d.bays@, port)]) {
            Some(st) => Ok(st),
            None => Err(ControlError::NotReported("the source's stream addresses")),
        }
    }
}

/// The streams the source bay on `port` advertises.
pub fn source_streams(device: &Device, port: u16) -> (r: Result<&V2ipStreamSources, ControlError>)
    ensures
        match r {
            Ok(st) => spec_source_streams(*device, port) == Ok::<V2ipStreamSources, ControlError>(
                *st,
            ),
            Err(e) => spec_source_streams(*device, port) == Err::<V2ipStreamSources, ControlError>(
                e,
            ),
        },
{
    match device.bay_index(port) {
        None => Err(ControlError::UnknownBay(BayUid { device: device.uid, port })),
        Some(j) => {
            proof {
                let c = first_bay(device.bays@, port);
                assert(is_first_bay(device.bays@, port, c));
                lemma_first_bay_unique(device.bays@, port, j as int, c);
            }
            let n = device.bays[j].bay_num as usize;
            match &device.v2ip_sources {
                Some(list) => if n < list.len() {
                    Ok(&list[n])
                } else {
                    Err(ControlError::NotReported("the source's stream addresses"))
                },
                None => Err(ControlError::NotReported("the source's stream addresses")),
            }
        },
    }
}

/// A sink bay, or the reason it cannot be routed.
pub open spec fn spec_v2ip_sink(s: State, uid: BayUid) -> Result<(Device, Bay), ControlError> {
    match spec_bay_of(s, uid) {
        Ok((d, b)) => if spec_is_v2ip_sink(b) {
            Ok((d, b))
        } else {
            Err(ControlError::Unsupported("routing needs a V2IP sink"))
        },
        Err(e) => Err(e),
    }
}

/// A sink bay, or the reason it cannot be routed.
pub fn v2ip_sink(state: &State, uid: BayUid) -> (r: Result<(&Device, &Bay), ControlError>)
    ensures
        match r {
            Ok((d, b)) => spec_v2ip_sink(*state, uid) == Ok::<(Device, Bay), ControlError>(
                (*d, *b),
            ),
            Err(e) => spec_v2ip_sink(*state, uid) == Err::<(Device, Bay), ControlError>(e),
        },
{
    let (device, bay) = bay_of(state, uid)?;
    if !bay.is_v2ip_sink() {
        return Err(ControlError::Unsupported("routing needs a V2IP sink"));
    }
    Ok((device, bay))
}

/// The unset address, which tells a sink to keep the stream it has.
pub open spec fn unset_ip() -> Ipv4 {
    Ipv4 { a: 0, b: 0, c: 0, d: 0 }
}

/// Routing a sink's video to what a source port advertises.
pub open spec fn spec_select_video_source(s: State, sink: BayUid, source_port: u16) -> Result<
    Command,
    ControlError,
> {
    match spec_v2ip_sink(s, sink) {
        Err(e) => Err(e),
        Ok((d, b)) => if !spec_is_output(b) {
            Err(ControlError::Unsupported("not an output bay"))
        } else {
            match spec_source_streams(d, source_port) {
                Err(e) => Err(e),
                Ok(st) => Ok(
                    Command {
                        to: spec_addressee(d),
                        request: Request::SourceSwitch {
                            target: d.uid,
                            video: st.video.ip,
                            audio: unset_ip(),
                        },
                        write_back: None,
                    },
                ),
            }
        },
    }
}

/// Routes a V2IP sink's video to the stream a source port advertises.
pub fn select_video_source(state: &State, sink: BayUid, source_port: u16) -> (r: Result<
    Command,
    ControlError,
>)
    ensures
        r == spec_select_video_source(*state, sink, source_port),
{
    let (device, bay) = v2ip_sink(state, sink)?;
    if !bay.is_output() {
        return Err(ControlError::Unsupported("not an output bay"));
    }
    let streams = source_streams(device, source_port)?;
    Ok(
        Command::new(
            Addressee::device(device),
            Request::SourceSwitch {
                target: device.uid,
                video: streams.video.ip,
                audio: Ipv4 { a: 0, b: 0, c: 0, d: 0 },
            },
        ),
    )
}

/// Routing a sink's audio to what a source port advertises.
pub open spec fn spec_select_audio_source(s: State, sink: BayUid, source_port: u16) -> Result<
    Command,
    ControlError,
> {
    match spec_v2ip_sink(s, sink) {
        Err(e) => Err(e),
        Ok((d, b)) => match spec_source_streams(d, source_port) {
            Err(e) => Err(e),
            Ok(st) => Ok(
                Command {
                    to: spec_addressee(d),
                    request: Request::SourceSwitch {
                        target: d.uid,
                        video: unset_ip(),
                        audio: st.audio.ip,
                    },
                    write_back: None,
                },
            ),
        },
    }
}

/// Routes a V2IP sink's audio to the stream a source port advertises,
/// leaving its video where it is.
pub fn select_audio_source(state: &State, sink: BayUid, source_port: u16) -> (r: Result<
    Command,
    ControlError,
>)
    ensures
        r == spec_select_audio_source(*state, sink, source_port),
{
    let (device, _) = v2ip_sink(state, sink)?;
    let streams = source_streams(device, source_port)?;
    Ok(
        Command::new(
            Addressee::device(device),
            Request::SourceSwitch {
                target: device.uid,
                video: Ipv4 { a: 0, b: 0, c: 0, d: 0 },
                audio: streams.audio.ip,
            },
        ),
    )
}

/// The port of the first bay of `d` the installer named `name`, if any.
pub open spec fn spec_named_port(d: Device, name: Seq<char>) -> Option<u16> {
    if exists|k: int| 0 <= k < d.bays@.len() && spec_user_name(d.bays@[k]) == name {
        let k = choose|k: int|
            0 <= k < d.bays@.len() && spec_user_name(d.bays@[k]) == name && forall|m: int|
                0 <= m < k ==> spec_user_name(d.bays@[m]) != name;
        Some(d.bays@[k].port)
    } else {
        None
    }
}

/// The port of the input bay on `sink`'s device the installer named `name`.
pub fn source_port(state: &State, sink: BayUid, name: &str) -> (r: Result<u16, ControlError>)
    ensures
        match spec_bay_of(*state, sink) {
            Err(e) => r == Err::<u16, ControlError>(e),
            Ok((d, _)) => match spec_named_port(d, name@) {
                Some(p) => r == Ok::<u16, ControlError>(p),
                None => r matches Err(ControlError::UnknownSource(n)) && n@ == name@,
            },
        },
{
    let (device, _) = bay_of(state, sink)?;
    match device.bay_index_by_user_name(name) {
        Some(k) => {
            proof {
                let bays = device.bays@;
                let c = choose|c: int|
                    0 <= c < bays.len() && spec_user_name(bays[c]) == name@ && forall|m: int|
                        0 <= m < c ==> spec_user_name(bays[m]) != name@;
                assert(0 <= k < bays.len() && spec_user_name(bays[k as int]) == name@);
                assert(c == k);
            }
            Ok(device.bays[k].port)
        },
        None => Err(ControlError::UnknownSource(String::from_str(name))),
    }
}

/// Routes a V2IP sink's video to the input bay the installer gave `name`.
pub fn select_video_source_by_name(state: &State, sink: BayUid, name: &str) -> (r: Result<
    Command,
    ControlError,
>)
    ensures
        match spec_bay_of(*state, sink) {
            Err(e) => r == Err::<Command, ControlError>(e),
            Ok((d, _)) => match spec_named_port(d, name@) {
                Some(p) => r == spec_select_video_source(*state, sink, p),
                None => r matches Err(ControlError::UnknownSource(n)) && n@ == name@,
            },
        },
{
    let port = source_port(state, sink, name)?;
    select_video_source(state, sink, port)
}

/// Routing a sink's audio to a multicast group directly.
pub open spec fn spec_select_audio_source_addr(
    s: State,
    sink: BayUid,
    audio: Ipv4,
    audio_port: Option<u16>,
    format: Option<V2ipAudioFormat>,
) -> Result<Command, ControlError> {
    match spec_v2ip_sink(s, sink) {
        Err(e) => Err(e),
        Ok((d, _)) => Ok(
            Command {
                to: spec_addressee(d),
                request: Request::ManualAudioSwitch { target: sink.device, audio, audio_port, format },
                write_back: None,
            },
        ),
    }
}

/// Routes a V2IP sink's audio to a multicast address directly, leaving its
/// video and ancillary streams alone. An unset port is the standard V2IP
/// audio port; a format overrides the sample rate and channel count the
/// receiver would otherwise assume.
pub fn select_audio_source_addr(
    state: &State,
    sink: BayUid,
    audio: Ipv4,
    audio_port: Option<u16>,
    format: Option<V2ipAudioFormat>,
) -> (r: Result<Command, ControlError>)
    ensures
        r == spec_select_audio_source_addr(*state, sink, audio, audio_port, format),
{
    let (device, _) = v2ip_sink(state, sink)?;
    Ok(
        Command::new(
            Addressee::device(device),
            Request::ManualAudioSwitch { target: sink.device, audio, audio_port, format },
        ),
    )
}

/// Routing a sink's audio to a source port's stream, carried on the manual
/// switch frame so that `format` reaches the receiver.
pub open spec fn spec_select_audio_source_with_format(
    s: State,
    sink: BayUid,
    source_port: u16,
    format: V2ipAudioFormat,
) -> Result<Command, ControlError> {
    match spec_v2ip_sink(s, sink) {
        Err(e) => Err(e),
        Ok((d, _)) => match spec_source_streams(d, source_port) {
            Err(e) => Err(e),
            Ok(st) => Ok(
                Command {
                    to: spec_addressee(d),
                    request: Request::ManualAudioSwitch {
                        target: sink.device,
                        audio: st.audio.ip,
                        audio_port: Some(st.audio.port),
                        format: Some(format),
                    },
                    write_back: None,
                },
            ),
        },
    }
}

/// Routes a V2IP sink's audio from the input bay the installer gave `name`.
///
/// Without a format this is the ordinary source switch; a format needs the
/// manual switch frame, the only form that can override the receiver's
/// sample rate and channel count.
pub fn select_audio_source_by_name(
    state: &State,
    sink: BayUid,
    name: &str,
    format: Option<V2ipAudioFormat>,
) -> (r: Result<Command, ControlError>)
    ensures
        match spec_bay_of(*state, sink) {
            Err(e) => r == Err::<Command, ControlError>(e),
            Ok((d, _)) => match spec_named_port(d, name@) {
                Some(p) => match format {
                    None => r == spec_select_audio_source(*state, sink, p),
                    Some(f) => r == spec_select_audio_source_with_format(*state, sink, p, f),
                },
                None => r matches Err(ControlError::UnknownSource(n)) && n@ == name@,
            },
        },
{
    let port = source_port(state, sink, name)?;
    match format {
        None => select_audio_source(state, sink, port),
        Some(f) => {
            let (device, _) = v2ip_sink(state, sink)?;
            let streams = source_streams(device, port)?;
            Ok(
                Command::new(
                    Addressee::device(device),
                    Request::ManualAudioSwitch {
                        target: sink.device,
                        audio: streams.audio.ip,
                        audio_port: Some(streams.audio.port),
                        format: Some(f),
                    },
                ),
            )
        },
    }
}

/// How many bytes of a bay name a device stores.
pub const DEVICE_NAME_LEN: usize = 16;

/// The name as the device will store it: the field is [`DEVICE_NAME_LEN`]
/// bytes wide, so a longer name is cut there, and a character the cut splits
/// becomes one replacement character.
pub open spec fn spec_stored_name(name: Seq<char>) -> Seq<char> {
    let bytes = encode_utf8(name);
    if bytes.len() <= DEVICE_NAME_LEN {
        name
    } else {
        let end = boundary_at_or_below(bytes, DEVICE_NAME_LEN as int);
        decode_utf8(bytes.take(end)) + if end < DEVICE_NAME_LEN {
            seq!['\u{FFFD}']
        } else {
            Seq::<char>::empty()
        }
    }
}

/// The name as the device will store it.
pub fn stored_name(name: &str) -> (r: String)
    ensures
        r@ == spec_stored_name(name@),
{
    let bytes = name.as_bytes();
    if bytes.len() <= DEVICE_NAME_LEN {
        return String::from_str(name);
    }
    let mut end: usize = DEVICE_NAME_LEN;
    proof {
        encode_utf8_valid_utf8(name@);
        lemma_boundary_bounds(bytes@, DEVICE_NAME_LEN as int);
    }
    while end > 0 && !name.is_char_boundary(end)
        invariant
            end <= DEVICE_NAME_LEN,
            bytes@ == name.spec_bytes(),
            bytes@.len() > DEVICE_NAME_LEN,
            valid_utf8(bytes@),
            boundary_at_or_below(bytes@, DEVICE_NAME_LEN as int) == boundary_at_or_below(
                bytes@,
                end as int,
            ),
        decreases end,
    {
        end = end - 1;
    }
    assert(is_char_boundary(bytes@, end as int));
    assert(end == boundary_at_or_below(bytes@, DEVICE_NAME_LEN as int));
    let (head, _) = name.split_at(end);
    proof {
        encode_utf8_decode_utf8(head@);
        assert(head.spec_bytes() =~= bytes@.take(end as int));
    }
    let mut out = String::from_str(head);
    if end < DEVICE_NAME_LEN {
        let mark = "\u{FFFD}";
        proof {
            reveal_strlit("\u{FFFD}");
        }
        out.append(mark);
    }
    proof {
        assert(out@ =~= spec_stored_name(name@));
    }
    out
}

/// A command to the device a bay is on.
pub open spec fn spec_bay_command(
    s: State,
    bay: BayUid,
    request: Request,
    write_back: Option<WriteBack>,
) -> Result<Command, ControlError> {
    match spec_bay_of(s, bay) {
        Err(e) => Err(e),
        Ok((d, _)) => Ok(Command { to: spec_addressee(d), request, write_back }),
    }
}

/// A command to a device.
pub open spec fn spec_device_command(
    s: State,
    uid: DeviceUid,
    request: Request,
    write_back: Option<WriteBack>,
) -> Result<Command, ControlError> {
    match spec_device_of(s, uid) {
        Err(e) => Err(e),
        Ok(d) => Ok(Command { to: spec_addressee(d), request, write_back }),
    }
}

/// Renames a bay, to the name as the device will store it.
pub fn set_bay_name(state: &State, bay: BayUid, name: &str) -> (r: Result<Command, ControlError>)
    ensures
        match spec_bay_of(*state, bay) {
            Err(e) => r == Err::<Command, ControlError>(e),
            Ok((d, _)) => {
                &&& r matches Ok(c)
                &&& c.to == spec_addressee(d)
                &&& c.request matches Request::SetBayName { target, port, name: n }
                &&& target == bay.device && port == bay.port && n@ == spec_stored_name(name@)
                &&& c.write_back matches Some(WriteBack::UserName { bay: wb, name: wn })
                &&& wb == bay && wn@ == n@
            },
        },
{
    let stored = stored_name(name);
    let (device, _) = bay_of(state, bay)?;
    let kept = stored.clone();
    Ok(
        Command { to: Addressee::device(device), request: Request::SetBayName { target: bay.device, port: bay.port, name: stored }, write_back: Some(WriteBack::UserName { bay, name: kept }) },
    )
}

/// Hides a bay from the pickers that list it, or shows it again.
pub fn set_bay_hidden(state: &State, bay: BayUid, hidden: bool) -> (r: Result<
    Command,
    ControlError,
>)
    ensures
        r == spec_bay_command(
            *state,
            bay,
            Request::BayHide { target: bay.device, port: bay.port, hidden },
            Some(WriteBack::Hidden { bay, hidden }),
        ),
{
    let (device, _) = bay_of(state, bay)?;
    Ok(
        Command { to: Addressee::device(device), request: Request::BayHide { target: bay.device, port: bay.port, hidden }, write_back: Some(WriteBack::Hidden { bay, hidden }) },
    )
}

/// Sets the EDID profile an input presents to the source attached to it.
pub fn select_edid_profile(state: &State, bay: BayUid, profile: EdidProfile) -> (r: Result<
    Command,
    ControlError,
>)
    ensures
        r == spec_bay_command(
            *state,
            bay,
            Request::SetEdidProfile { target: bay.device, profile },
            Some(WriteBack::EdidProfile { bay, profile }),
        ),
{
    let (device, _) = bay_of(state, bay)?;
    Ok(
        Command { to: Addressee::device(device), request: Request::SetEdidProfile { target: bay.device, profile }, write_back: Some(WriteBack::EdidProfile { bay, profile }) },
    )
}

/// Sends a remote-control action to whatever is attached to a bay.
pub fn send_action(state: &State, bay: BayUid, action: RcAction) -> (r: Result<
    Command,
    ControlError,
>)
    ensures
        r == spec_bay_command(
            *state,
            bay,
            Request::Action { target: bay.device, port: bay.port, action },
            None,
        ),
{
    let (device, _) = bay_of(state, bay)?;
    Ok(
        Command::new(
            Addressee::device(device),
            Request::Action { target: bay.device, port: bay.port, action },
        ),
    )
}

/// Powers what is attached to a bay on or off, and records the power state
/// it will be in.
pub fn set_power(state: &State, bay: BayUid, on: bool) -> (r: Result<Command, ControlError>)
    ensures
        r == spec_bay_command(
            *state,
            bay,
            Request::Power { target: bay.device, port: bay.port, on },
            Some(
                WriteBack::Power {
                    bay,
                    power: if on {
                        PowerStatus::On
                    } else {
                        PowerStatus::Off
                    },
                },
            ),
        ),
{
    let (device, _) = bay_of(state, bay)?;
    let power = if on {
        PowerStatus::On
    } else {
        PowerStatus::Off
    };
    Ok(
        Command { to: Addressee::device(device), request: Request::Power { target: bay.device, port: bay.port, on }, write_back: Some(WriteBack::Power { bay, power }) },
    )
}

/// Powers on the device attached to a bay.
pub fn power_on(state: &State, bay: BayUid) -> (r: Result<Command, ControlError>)
    ensures
        r == spec_bay_command(
            *state,
            bay,
            Request::Power { target: bay.device, port: bay.port, on: true },
            Some(WriteBack::Power { bay, power: PowerStatus::On }),
        ),
{
    set_power(state, bay, true)
}

/// Powers off the device attached to a bay.
pub fn power_off(state: &State, bay: BayUid) -> (r: Result<Command, ControlError>)
    ensures
        r == spec_bay_command(
            *state,
            bay,
            Request::Power { target: bay.device, port: bay.port, on: false },
            Some(WriteBack::Power { bay, power: PowerStatus::Off }),
        ),
{
    set_power(state, bay, false)
}

/// A volume percentage clamped to 100.
pub open spec fn clamp_percent(v: u8) -> u8 {
    if v <= 100 {
        v
    } else {
        100
    }
}

/// Both channels at `volume`, muted as `muted` says.
pub open spec fn both_channels(volume: u8, muted: Option<bool>) -> VolumeMuteStatus {
    VolumeMuteStatus {
        volume_left: Some(volume),
        volume_right: Some(volume),
        muted_left: muted,
        muted_right: muted,
    }
}

/// Setting a bay's volume: the command goes where the volume lives, which
/// for a bay without a volume control of its own is the bay it is linked to.
pub open spec fn spec_set_volume(s: State, bay: BayUid, volume: u8, muted: Option<bool>) -> Result<
    Command,
    ControlError,
> {
    let target = spec_volume_bay(s.devices@, bay);
    let wanted = both_channels(clamp_percent(volume), muted);
    match spec_bay_of(s, target) {
        Err(e) => Err(e),
        Ok((d, b)) => if !spec_has_volume_control(b) {
            Err(ControlError::Unsupported("the bay has no volume control"))
        } else {
            Ok(
                Command {
                    to: spec_addressee(d),
                    request: Request::SetVolume {
                        target: target.device,
                        port: target.port,
                        volume: wanted,
                    },
                    write_back: Some(WriteBack::Volume { bay: target, volume: wanted }),
                },
            )
        },
    }
}

/// Sets a bay's volume, as a percentage capped at 100, and optionally its
/// mute state; both channels together.
pub fn set_volume(state: &State, bay: BayUid, volume: u8, muted: Option<bool>) -> (r: Result<
    Command,
    ControlError,
>)
    ensures
        r == spec_set_volume(*state, bay, volume, muted),
{
    let volume = if volume <= 100 {
        volume
    } else {
        100
    };
    let wanted = VolumeMuteStatus::both(volume, muted);
    let target = state.volume_bay(bay);
    let (device, b) = bay_of(state, target)?;
    if !b.has_volume_control() {
        return Err(ControlError::Unsupported("the bay has no volume control"));
    }
    Ok(
        Command { to: Addressee::device(device), request: Request::SetVolume { target: target.device, port: target.port, volume: wanted }, write_back: Some(WriteBack::Volume { bay: target, volume: wanted }) },
    )
}

/// The volume a step or a mute is relative to: that of the bay the volume
/// lives on.
pub open spec fn spec_current_volume(s: State, bay: BayUid) -> Result<u8, ControlError> {
    match spec_bay_of(s, spec_volume_bay(s.devices@, bay)) {
        Err(e) => Err(e),
        Ok((_, b)) => match b.audio_volume {
            Some(v) => Ok(combined_volume(v)),
            None => Err(ControlError::NotReported("the bay's volume")),
        },
    }
}

/// The volume a step or a mute is relative to.
pub fn current_volume(state: &State, bay: BayUid) -> (r: Result<u8, ControlError>)
    ensures
        r == spec_current_volume(*state, bay),
{
    let target = state.volume_bay(bay);
    let (_, b) = bay_of(state, target)?;
    match b.audio_volume {
        Some(v) => Ok(v.volume()),
        None => Err(ControlError::NotReported("the bay's volume")),
    }
}

/// Raises a bay's volume by one percent.
pub fn volume_up(state: &State, bay: BayUid) -> (r: Result<Command, ControlError>)
    ensures
        match spec_current_volume(*state, bay) {
            Err(e) => r == Err::<Command, ControlError>(e),
            Ok(v) => r == spec_set_volume(
                *state,
                bay,
                if v < 255 {
                    (v + 1) as u8
                } else {
                    255
                },
                None,
            ),
        },
{
    let v = current_volume(state, bay)?;
    let up = if v < 255 {
        v + 1
    } else {
        255
    };
    set_volume(state, bay, up, None)
}

/// Lowers a bay's volume by one percent.
pub fn volume_down(state: &State, bay: BayUid) -> (r: Result<Command, ControlError>)
    ensures
        match spec_current_volume(*state, bay) {
            Err(e) => r == Err::<Command, ControlError>(e),
            Ok(v) => r == spec_set_volume(
                *state,
                bay,
                if v > 0 {
                    (v - 1) as u8
                } else {
                    0
                },
                None,
            ),
        },
{
    let v = current_volume(state, bay)?;
    let down = if v > 0 {
        v - 1
    } else {
        0
    };
    set_volume(state, bay, down, None)
}

/// Mutes or unmutes a bay, keeping the volume it is set to.
pub fn set_muted(state: &State, bay: BayUid, muted: bool) -> (r: Result<Command, ControlError>)
    ensures
        match spec_current_volume(*state, bay) {
            Err(e) => r == Err::<Command, ControlError>(e),
            Ok(v) => r == spec_set_volume(*state, bay, v, Some(muted)),
        },
{
    let v = current_volume(state, bay)?;
    set_volume(state, bay, v, Some(muted))
}

/// Applies amplifier settings to a zone.
pub fn set_amp_zone_settings(state: &State, bay: BayUid, settings: AmpZoneSettings) -> (r: Result<
    Command,
    ControlError,
>)
    ensures
        r == spec_bay_command(
            *state,
            bay,
            Request::AmpZoneSettings { target: bay.device, port: bay.port, settings },
            Some(WriteBack::AmpSettings { bay, settings }),
        ),
{
    let (device, _) = bay_of(state, bay)?;
    Ok(
        Command { to: Addressee::device(device), request: Request::AmpZoneSettings { target: bay.device, port: bay.port, settings }, write_back: Some(WriteBack::AmpSettings { bay, settings }) },
    )
}

/// Changes one setting of an audio endpoint.
pub fn audio_endpoint(
    state: &State,
    device: DeviceUid,
    setting: AudioEndpointSetting,
    endpoint: u16,
    value: u32,
) -> (r: Result<Command, ControlError>)
    ensures
        r == spec_device_command(
            *state,
            device,
            Request::AudioEndpoint { setting, target: device, endpoint, value },
            None,
        ),
{
    let d = device_of(state, device)?;
    Ok(
        Command::new(
            Addressee::device(d),
            Request::AudioEndpoint { setting, target: device, endpoint, value },
        ),
    )
}

/// Mutes or unmutes an audio endpoint.
pub fn set_audio_endpoint_muted(state: &State, device: DeviceUid, endpoint: u16, muted: bool) -> (r:
    Result<Command, ControlError>)
    ensures
        r == spec_device_command(
            *state,
            device,
            Request::AudioEndpoint {
                setting: AudioEndpointSetting::Mute,
                target: device,
                endpoint,
                value: if muted {
                    1
                } else {
                    0
                },
            },
            None,
        ),
{
    let value: u32 = if muted {
        1
    } else {
        0
    };
    audio_endpoint(state, device, AudioEndpointSetting::Mute, endpoint, value)
}

/// Sets an audio endpoint's trigger output.
pub fn set_audio_endpoint_trigger(state: &State, device: DeviceUid, endpoint: u16, active: bool) -> (r:
    Result<Command, ControlError>)
    ensures
        r == spec_device_command(
            *state,
            device,
            Request::AudioEndpoint {
                setting: AudioEndpointSetting::Trigger,
                target: device,
                endpoint,
                value: if active {
                    1
                } else {
                    0
                },
            },
            None,
        ),
{
    let value: u32 = if active {
        1
    } else {
        0
    };
    audio_endpoint(state, device, AudioEndpointSetting::Trigger, endpoint, value)
}

/// Sets an audio endpoint's volume.
pub fn set_audio_endpoint_volume(state: &State, device: DeviceUid, endpoint: u16, volume: u32) -> (r:
    Result<Command, ControlError>)
    ensures
        r == spec_device_command(
            *state,
            device,
            Request::AudioEndpoint {
                setting: AudioEndpointSetting::Volume,
                target: device,
                endpoint,
                value: volume,
            },
            None,
        ),
{
    audio_endpoint(state, device, AudioEndpointSetting::Volume, endpoint, volume)
}

/// Routes a source endpoint on one device to a sink endpoint on another.
pub fn select_audio_endpoint_input(
    state: &State,
    sink: DeviceUid,
    sink_endpoint: u16,
    source: DeviceUid,
    source_endpoint: u16,
) -> (r: Result<Command, ControlError>)
    ensures
        r == spec_device_command(
            *state,
            sink,
            Request::AudioSelectInput { sink, sink_endpoint, source, source_endpoint },
            None,
        ),
{
    let d = device_of(state, sink)?;
    Ok(
        Command::new(
            Addressee::device(d),
            Request::AudioSelectInput { sink, sink_endpoint, source, source_endpoint },
        ),
    )
}

/// Starts or stops a V2IP device reporting its transport statistics.
pub fn subscribe_v2ip_stats(state: &State, device: DeviceUid, subscribe: bool) -> (r: Result<
    Command,
    ControlError,
>)
    ensures
        r == spec_device_command(
            *state,
            device,
            Request::StatsRequest { target: device, subscribe },
            None,
        ),
{
    let d = device_of(state, device)?;
    Ok(Command::new(Addressee::device(d), Request::StatsRequest { target: device, subscribe }))
}

/// Reboots a device, which is marked as rebooting once the frame is away so
/// that the silence after it does not read as going offline.
pub fn reboot(state: &State, device: DeviceUid) -> (r: Result<Command, ControlError>)
    ensures
        r == spec_device_command(
            *state,
            device,
            Request::Reboot { target: device },
            Some(WriteBack::Rebooting { device }),
        ),
{
    let d = device_of(state, device)?;
    Ok(
        Command { to: Addressee::device(d), request: Request::Reboot { target: device }, write_back: Some(WriteBack::Rebooting { device }) },
    )
}

/// Asks every peer to report its monitoring data now rather than on its own
/// schedule.
pub fn send_monitoring_pulse() -> (c: Command)
    ensures
        c == (Command {
            to: Addressee::Broadcast,
            request: Request::MonitoringPulse,
            write_back: None,
        }),
{
    Command::new(Addressee::Broadcast, Request::MonitoringPulse)
}

/// Multiviewer sub-command: the window layout.
pub const MV_VIEW_MODE: u8 = 1;

/// Multiviewer sub-command: the source of one window.
pub const MV_VIDEO_SOURCE: u8 = 2;

/// Multiviewer sub-command: which window's audio is output.
pub const MV_AUDIO_SOURCE: u8 = 3;

/// Multiviewer sub-command: output volume and mute.
pub const MV_AUDIO_VOLUME: u8 = 4;

/// Multiviewer sub-command: which window receives remote-control passthrough.
pub const MV_ROUTE_RC: u8 = 6;

/// Multiviewer sub-command: which device feeds one of the inputs.
pub const MV_CONFIG_SOURCE: u8 = 14;

/// Multiviewer sub-command: route the sources automatically.
pub const MV_AUTO_ROUTE: u8 = 15;

/// A multiviewer command's payload: the target, the sub-command, seven bytes
/// of padding, then the sub-command's parameters.
pub open spec fn mv_payload(target: DeviceUid, sub: u8, args: Seq<u8>) -> Seq<u8> {
    target.bytes@ + seq![sub] + Seq::new(7, |i: int| 0u8) + args
}

/// Lays out a multiviewer command's payload.
pub fn mv_cmd_payload(target: &DeviceUid, sub: u8, args: &[u8]) -> (p: Vec<u8>)
    ensures
        p@ == mv_payload(*target, sub, args@),
{
    let mut p: Vec<u8> = Vec::new();
    let mut i: usize = 0;
    while i < 16
        invariant
            i <= 16,
            p@ == target.bytes@.take(i as int),
        decreases 16 - i,
    {
        p.push(target.bytes[i]);
        i = i + 1;
        assert(p@ =~= target.bytes@.take(i as int));
    }
    p.push(sub);
    let mut k: usize = 0;
    while k < 7
        invariant
            k <= 7,
            p@ == target.bytes@ + seq![sub] + Seq::new(k as nat, |i: int| 0u8),
        decreases 7 - k,
    {
        p.push(0);
        k = k + 1;
        assert(p@ =~= target.bytes@ + seq![sub] + Seq::new(k as nat, |i: int| 0u8));
    }
    let ghost head = p@;
    let mut j: usize = 0;
    while j < args.len()
        invariant
            j <= args@.len(),
            head == target.bytes@ + seq![sub] + Seq::new(7, |i: int| 0u8),
            p@ == head + args@.take(j as int),
        decreases args@.len() - j,
    {
        p.push(args[j]);
        j = j + 1;
        assert(p@ =~= head + args@.take(j as int));
    }
    assert(args@.take(args@.len() as int) =~= args@);
    p
}

/// What a multiviewer command to `device` comes to: refused unless the device
/// is known and is a multiviewer, else the payload for `sub` and `args`.
pub open spec fn multiviewer_outcome(
    s: State,
    device: DeviceUid,
    sub: u8,
    args: Seq<u8>,
    r: Result<Command, ControlError>,
) -> bool {
    match spec_device_of(s, device) {
        Err(e) => r == Err::<Command, ControlError>(e),
        Ok(d) => if !has_any(d.features, MXR_FEATURE_MULTIVIEWER) {
            r == Err::<Command, ControlError>(
                ControlError::Unsupported("the device is not a multiviewer"),
            )
        } else {
            &&& r matches Ok(c)
            &&& c.to == spec_addressee(d)
            &&& c.write_back is None
            &&& c.request matches Request::Multiviewer { payload }
            &&& payload@ == mv_payload(device, sub, args)
        },
    }
}

/// Sends one multiviewer sub-command with its parameters.
pub fn multiviewer(state: &State, device: DeviceUid, sub: u8, args: &[u8]) -> (r: Result<
    Command,
    ControlError,
>)
    ensures
        multiviewer_outcome(*state, device, sub, args@, r),
{
    let d = device_of(state, device)?;
    if !d.is_multiviewer() {
        return Err(ControlError::Unsupported("the device is not a multiviewer"));
    }
    Ok(
        Command::new(
            Addressee::device(d),
            Request::Multiviewer { payload: mv_cmd_payload(&device, sub, args) },
        ),
    )
}

/// Sets the window layout.
pub fn set_multiviewer_view_mode(state: &State, device: DeviceUid, mode: MultiviewerByte) -> (r:
    Result<Command, ControlError>)
    ensures
        multiviewer_outcome(*state, device, MV_VIEW_MODE, seq![mode.0], r),
{
    let args = [mode.0];
    proof {
        assert(args@ =~= seq![mode.0]);
    }
    multiviewer(state, device, MV_VIEW_MODE, &args)
}

/// Assigns a source to one window.
pub fn set_multiviewer_video_source(
    state: &State,
    device: DeviceUid,
    screen: u8,
    source: MultiviewerByte,
) -> (r: Result<Command, ControlError>)
    ensures
        multiviewer_outcome(*state, device, MV_VIDEO_SOURCE, seq![screen, source.0], r),
{
    let args = [screen, source.0];
    proof {
        assert(args@ =~= seq![screen, source.0]);
    }
    multiviewer(state, device, MV_VIDEO_SOURCE, &args)
}

/// A window as the status report numbers it, from one, as the commands that
/// name a window number it, from zero.
pub open spec fn window_from_zero(source: MultiviewerByte) -> u8 {
    if source.0 > 0 {
        (source.0 - 1) as u8
    } else {
        0
    }
}

/// Selects which window's audio is output.
pub fn set_multiviewer_audio_source(state: &State, device: DeviceUid, source: MultiviewerByte) -> (r:
    Result<Command, ControlError>)
    ensures
        multiviewer_outcome(*state, device, MV_AUDIO_SOURCE, seq![window_from_zero(source)], r),
{
    let w = if source.0 > 0 {
        source.0 - 1
    } else {
        0
    };
    let args = [w];
    proof {
        assert(args@ =~= seq![window_from_zero(source)]);
    }
    multiviewer(state, device, MV_AUDIO_SOURCE, &args)
}

/// Sets the output volume and mute state.
pub fn set_multiviewer_audio_volume(state: &State, device: DeviceUid, volume: u8, muted: bool) -> (r:
    Result<Command, ControlError>)
    ensures
        multiviewer_outcome(
            *state,
            device,
            MV_AUDIO_VOLUME,
            seq![
                volume,
                if muted {
                    1u8
                } else {
                    0u8
                },
            ],
            r,
        ),
{
    let m: u8 = if muted {
        1
    } else {
        0
    };
    let args = [volume, m];
    proof {
        assert(args@ =~= seq![volume, m]);
    }
    multiviewer(state, device, MV_AUDIO_VOLUME, &args)
}

/// Selects which window receives remote-control passthrough.
pub fn set_multiviewer_remote_control(state: &State, device: DeviceUid, source: MultiviewerByte) -> (r:
    Result<Command, ControlError>)
    ensures
        multiviewer_outcome(*state, device, MV_ROUTE_RC, seq![window_from_zero(source)], r),
{
    let w = if source.0 > 0 {
        source.0 - 1
    } else {
        0
    };
    let args = [w];
    proof {
        assert(args@ =~= seq![window_from_zero(source)]);
    }
    multiviewer(state, device, MV_ROUTE_RC, &args)
}

/// The parameters that map `source` onto input `input`: the identifier, the
/// input, then seven bytes of padding.
pub open spec fn input_source_args(input: u8, source: DeviceUid) -> Seq<u8> {
    source.bytes@ + seq![input] + Seq::new(7, |i: int| 0u8)
}

/// Maps a source device onto one of the multiviewer's inputs; the zero
/// identifier clears the mapping.
pub fn set_multiviewer_input_source(
    state: &State,
    device: DeviceUid,
    input: u8,
    source: DeviceUid,
) -> (r: Result<Command, ControlError>)
    ensures
        multiviewer_outcome(*state, device, MV_CONFIG_SOURCE, input_source_args(input, source), r),
{
    let mut args: Vec<u8> = Vec::new();
    let mut i: usize = 0;
    while i < 16
        invariant
            i <= 16,
            args@ == source.bytes@.take(i as int),
        decreases 16 - i,
    {
        args.push(source.bytes[i]);
        i = i + 1;
        assert(args@ =~= source.bytes@.take(i as int));
    }
    args.push(input);
    let mut k: usize = 0;
    while k < 7
        invariant
            k <= 7,
            args@ == source.bytes@ + seq![input] + Seq::new(k as nat, |i: int| 0u8),
        decreases 7 - k,
    {
        args.push(0);
        k = k + 1;
        assert(args@ =~= source.bytes@ + seq![input] + Seq::new(k as nat, |i: int| 0u8));
    }
    multiviewer(state, device, MV_CONFIG_SOURCE, args.as_slice())
}

/// Asks the multiviewer to route its sources itself.
pub fn multiviewer_auto_route(state: &State, device: DeviceUid) -> (r: Result<
    Command,
    ControlError,
>)
    ensures
        multiviewer_outcome(*state, device, MV_AUTO_ROUTE, Seq::<u8>::empty(), r),
{
    let args: Vec<u8> = Vec::new();
    proof {
        assert(args@ =~= Seq::<u8>::empty());
    }
    multiviewer(state, device, MV_AUTO_ROUTE, args.as_slice())
}

/// What a signal-status request carries: the unit asked, or nothing for all.
pub open spec fn signal_status_payload(target: Option<DeviceUid>) -> Seq<u8> {
    match target {
        Some(u) => u.bytes@,
        None => Seq::empty(),
    }
}

/// Asks one unit, or every unit on the network, for its signal reports.
///
/// A request for one unit goes to that unit, so it must be known; a request
/// for every unit is a broadcast and names no device to be refused by.
pub fn request_signal_status(state: &State, target: Option<DeviceUid>) -> (r: Result<
    Command,
    ControlError,
>)
    ensures
        match target {
            None => {
                &&& r matches Ok(c)
                &&& c.to == Addressee::Broadcast
                &&& c.write_back is None
                &&& c.request matches Request::SignalStatus { payload }
                &&& payload@ == Seq::<u8>::empty()
            },
            Some(u) => match spec_device_of(*state, u) {
                Err(e) => r == Err::<Command, ControlError>(e),
                Ok(d) => {
                    &&& r matches Ok(c)
                    &&& c.to == spec_addressee(d)
                    &&& c.write_back is None
                    &&& c.request matches Request::SignalStatus { payload }
                    &&& payload@ == u.bytes@
                },
            },
        },
{
    match target {
        None => {
            let payload: Vec<u8> = Vec::new();
            Ok(Command::new(Addressee::Broadcast, Request::SignalStatus { payload }))
        },
        Some(u) => {
            let d = device_of(state, u)?;
            let mut payload: Vec<u8> = Vec::new();
            let mut i: usize = 0;
            while i < 16
                invariant
                    i <= 16,
                    payload@ == u.bytes@.take(i as int),
                decreases 16 - i,
            {
                payload.push(u.bytes[i]);
                i = i + 1;
                assert(payload@ =~= u.bytes@.take(i as int));
            }
            assert(u.bytes@.take(16) =~= u.bytes@);
            Ok(Command::new(Addressee::device(d), Request::SignalStatus { payload }))
        },
    }
}

/// Asks a device for the EDID of the display on its output, or of the one it
/// presents on its input.
pub fn request_edid(state: &State, target: DeviceUid, output: bool) -> (r: Result<
    Command,
    ControlError,
>)
    ensures
        r == spec_device_command(
            *state,
            target,
            Request::Edid(EdidRequest { target, output }),
            None,
        ),
{
    let d = device_of(state, target)?;
    Ok(Command::new(Addressee::device(d), Request::Edid(EdidRequest { target, output })))
}

/// Sends a remote-control key on a bay; the device is told the bay by its own
/// number for it.
pub fn send_key(state: &State, bay: BayUid, key: RcKey) -> (r: Result<Command, ControlError>)
    ensures
        match spec_bay_of(*state, bay) {
            Err(e) => r == Err::<Command, ControlError>(e),
            Ok((d, b)) => r == Ok::<Command, ControlError>(
                Command {
                    to: spec_addressee(d),
                    request: Request::Key(
                        KeyTransmitRequest { target: bay.device, local_bay: b.bay_num as u16, key },
                    ),
                    write_back: None,
                },
            ),
        },
{
    let (d, b) = bay_of(state, bay)?;
    Ok(
        Command::new(
            Addressee::device(d),
            Request::Key(
                KeyTransmitRequest { target: bay.device, local_bay: b.bay_num as u16, key },
            ),
        ),
    )
}

/// A volume command sets both channels alike: whatever bay it goes to, it
/// asks for the same volume on the left and the right, capped at 100, and the
/// same mute state on both, and it writes back exactly what it asked for.
pub proof fn lemma_volume_sets_both_channels(s: State, bay: BayUid, volume: u8, muted: Option<bool>)
    ensures
        spec_set_volume(s, bay, volume, muted) matches Ok(c) ==> (c.request matches Request::SetVolume {
            volume: v,
            port,
            target,
        } && v.volume_left == Some((if volume <= 100 { volume } else { 100u8 }))
            && v.volume_right == v.volume_left && v.muted_left == muted && v.muted_right == muted
            && c.write_back == Some(WriteBack::Volume { bay: BayUid { device: target, port }, volume: v })),
{
}

/// Muting keeps the volume: a mute command asks for the volume the bay
/// reports, capped at 100, on both channels, and the mute state on both.
pub proof fn lemma_mute_keeps_the_volume(s: State, bay: BayUid, muted: bool)
    ensures
        spec_current_volume(s, bay) matches Ok(v) ==> (spec_set_volume(s, bay, v, Some(muted)) matches Ok(c)
            ==> (c.request matches Request::SetVolume { volume: w, .. } && w.volume_left == Some(
            (if v <= 100 { v } else { 100u8 }),
        ) && w.volume_right == w.volume_left && w.muted_left == Some(muted) && w.muted_right == Some(
            muted,
        ))),
{
}

/// The window a multiviewer's audio or remote-control command selects is the
/// report's window number less one, window 1 being the first: the payload is
/// the device's identifier, the sub-command, seven zero bytes and that one
/// argument byte.
pub proof fn lemma_window_counted_from_zero(
    s: State,
    device: DeviceUid,
    sub: u8,
    source: MultiviewerByte,
    r: Result<Command, ControlError>,
)
    requires
        sub == MV_AUDIO_SOURCE || sub == MV_ROUTE_RC,
        multiviewer_outcome(s, device, sub, seq![window_from_zero(source)], r),
    ensures
        r matches Ok(c) ==> (c.request matches Request::Multiviewer { payload } && payload@.len() == 25
            && payload@.subrange(0, 16) == device.bytes@ && payload@[16] == sub && (forall|i: int|
            17 <= i < 24 ==> payload@[i] == 0u8) && (source.0 >= 1 ==> payload@[24] + 1
            == source.0) && (source.0 == 0 ==> payload@[24] == 0)),
{
    if let Ok(c) = r {
        let a = seq![window_from_zero(source)];
        let m = mv_payload(device, sub, a);
        assert(m.subrange(0, 16) =~= device.bytes@);
        assert(m[16] == sub);
        assert forall|i: int| 17 <= i < 24 implies m[i] == 0u8 by {}
        assert(m[24] == window_from_zero(source));
    }
}

/// A manual audio switch carries what it was given: for a sink that routes,
/// the request names the sink's device, the address, the port and the format
/// the caller passed, unchanged.
pub proof fn lemma_manual_switch_carries_its_arguments(
    s: State,
    sink: BayUid,
    audio: Ipv4,
    audio_port: Option<u16>,
    format: Option<V2ipAudioFormat>,
)
    ensures
        spec_v2ip_sink(s, sink) is Ok <==> spec_select_audio_source_addr(
            s,
            sink,
            audio,
            audio_port,
            format,
        ) is Ok,
        spec_select_audio_source_addr(s, sink, audio, audio_port, format) matches Ok(c) ==> (
        c.request matches Request::ManualAudioSwitch { target, audio: a, audio_port: p, format: f }
            && target == sink.device && a == audio && p == audio_port && f == format),
{
}

/// Routing audio by source with a format carries that format to the
/// receiver, with the source's audio address and port.
pub proof fn lemma_switch_with_format_carries_it(
    s: State,
    sink: BayUid,
    source_port: u16,
    format: V2ipAudioFormat,
)
    ensures
        spec_select_audio_source_with_format(s, sink, source_port, format) matches Ok(c) ==> (
        c.request matches Request::ManualAudioSwitch { target, format: f, audio_port: p, .. }
            && target == sink.device && f == Some(format) && p is Some),
{
}

/// The payload of every multiviewer command: the device's identifier, the
/// sub-command, seven zero bytes, then the arguments in order.
pub proof fn lemma_multiviewer_payload_layout(target: DeviceUid, sub: u8, args: Seq<u8>)
    ensures
        mv_payload(target, sub, args).len() == 24 + args.len(),
        forall|i: int| 0 <= i < 16 ==> #[trigger] mv_payload(target, sub, args)[i] == target.bytes@[i],
        mv_payload(target, sub, args)[16] == sub,
        forall|i: int| 17 <= i < 24 ==> #[trigger] mv_payload(target, sub, args)[i] == 0u8,
        forall|i: int| 0 <= i < args.len() ==> #[trigger] mv_payload(target, sub, args)[24 + i] == args[i],
{
    let m = mv_payload(target, sub, args);
    assert forall|i: int| 0 <= i < args.len() implies #[trigger] m[24 + i] == args[i] by {}
}

} // verus!
