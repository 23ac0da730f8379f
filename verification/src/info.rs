//! Snapshots of a device and of a bay, and the lookups that find them.
//!
//! The registry is shared with the receive path, so a caller is handed a copy
//! rather than a borrow of it: a copy stays valid however the network behaves
//! afterwards.

use vstd::prelude::*;
use vstd::slice::slice_to_vec;

use crate::control::spec_source_for;
use crate::ident::{parse_uid_text, BayUid, DeviceUid};
use crate::net::Ipv4;
use crate::registry::{
    first_device, has_device, is_first_device, spec_effective_audio_source, spec_is_audio,
    spec_is_input, spec_is_local, spec_is_output, spec_has_dolby, spec_linked_bay,
    spec_user_name, spec_volume_bay, Bay, Device, State,
};
use crate::types::{
    AmpDolbySettings, AmpZoneSettings, AudioEndpoint, ArcStatus, BayMirrorStatus, DeviceStatus,
    DeviceV2ipDetails, DeviceV2ipSink, EdidProfile, FirmwareVersion, MultiviewerStatus,
    MxrSignalType, NetworkPortStatus, PowerStatus, RcSettings, RcType, TopologyEntry,
    V2ipDeviceStats, V2ipStreamSources, V2ipTilingConfig, VolumeMuteStatus,
};

verus! {

/// What a device is, and what it is doing.
#[derive(Clone, Debug, PartialEq, Eq)]
pub struct DeviceInfo {
    pub uid: DeviceUid,
    pub name: String,
    pub serial: String,
    pub model: String,
    pub version: String,
    pub supported_protocol: u16,
    pub features: u32,
    pub address: Option<Ipv4>,
    pub status: DeviceStatus,
    pub online: bool,
    pub configuration_complete: bool,
    pub config_initialised: bool,
    pub temperatures: Vec<u8>,
    pub mesh_master: DeviceUid,
    pub hdbt_outputs: u8,
    pub setup_done: Option<bool>,
    pub installer_id: Option<u16>,
    pub system_status: Option<(u16, String)>,
    /// Every bay on the device, in port order.
    pub bays: Vec<BayUid>,
}

/// The identifiers of `d`'s bays, in the order it holds them.
pub open spec fn bay_uids(d: Device) -> Seq<BayUid> {
    Seq::new(d.bays@.len(), |j: int| BayUid { device: d.uid, port: d.bays@[j].port })
}

/// Whether `info` is a snapshot of `d`.
pub open spec fn describes_device(info: DeviceInfo, d: Device) -> bool {
    &&& info.uid == d.uid
    &&& info.name == d.name
    &&& info.serial == d.serial
    &&& info.model == d.model
    &&& info.version == d.version
    &&& info.supported_protocol == d.supported_protocol
    &&& info.features == d.features
    &&& info.address == d.address
    &&& info.status == d.status
    &&& info.online == d.online
    &&& info.configuration_complete == d.configuration_complete
    &&& info.config_initialised == d.config_initialised
    &&& info.temperatures@ == d.temperatures@
    &&& info.mesh_master == d.mesh_master
    &&& info.hdbt_outputs == d.hdbt_outputs
    &&& info.setup_done == d.setup_done
    &&& info.installer_id == d.installer_id
    &&& info.system_status == d.system_status
    &&& info.bays@ == bay_uids(d)
}


impl DeviceInfo {
    /// A snapshot of `device`.
    pub fn of(device: &Device) -> (info: DeviceInfo)
        ensures
            describes_device(info, *device),
    {
        let mut bays: Vec<BayUid> = Vec::new();
        let mut j: usize = 0;
        while j < device.bays.len()
            invariant
                j <= device.bays@.len(),
                bays@ == bay_uids(*device).take(j as int),
            decreases device.bays@.len() - j,
        {
            bays.push(BayUid { device: device.uid, port: device.bays[j].port });
            j = j + 1;
            assert(bays@ =~= bay_uids(*device).take(j as int));
        }
        assert(bays@ =~= bay_uids(*device));
        let system_status = match &device.system_status {
            Some((code, message)) => Some((*code, message.clone())),
            None => None,
        };
        DeviceInfo {
            uid: device.uid,
            name: device.name.clone(),
            serial: device.serial.clone(),
            model: device.model.clone(),
            version: device.version.clone(),
            supported_protocol: device.supported_protocol,
            features: device.features,
            address: device.address,
            status: device.status,
            online: device.online,
            configuration_complete: device.configuration_complete,
            config_initialised: device.config_initialised,
            temperatures: slice_to_vec(device.temperatures.as_slice()),
            mesh_master: device.mesh_master,
            hdbt_outputs: device.hdbt_outputs,
            setup_done: device.setup_done,
            installer_id: device.installer_id,
            system_status,
            bays,
        }
    }
}

/// What a bay is, and what is connected to it. A status the bay has never
/// reported is `None`, which is not the same as the status being off.
#[derive(Clone, Debug, PartialEq)]
pub struct BayInfo {
    pub uid: BayUid,
    pub port_name: String,
    /// The name the installer gave the bay, falling back to the port name.
    pub user_name: String,
    pub bay_num: u8,
    pub features: u32,
    pub is_input: bool,
    pub is_output: bool,
    pub is_audio: bool,
    pub has_dolby: bool,
    pub is_local: bool,
    pub video_source: Option<BayUid>,
    /// The bay routed here for audio, which follows the video source until
    /// the bay is told otherwise.
    pub audio_source: Option<BayUid>,
    pub power_status: Option<PowerStatus>,
    pub hidden: Option<bool>,
    pub faulty: Option<bool>,
    pub poe_powered: Option<bool>,
    pub hdbt_connected: Option<bool>,
    pub signal_detected: Option<bool>,
    pub hpd_detected: Option<bool>,
    pub cec_detected: Option<bool>,
    pub encoder_disabled: Option<bool>,
    pub decoder_disabled: Option<bool>,
    pub signal_type: Option<String>,
    pub signal_mode: MxrSignalType,
    pub arc: ArcStatus,
    /// Volume and mute, read through the bay the volume lives on.
    pub volume: Option<VolumeMuteStatus>,
    pub rc_type: Option<RcType>,
    pub edid_profile: Option<EdidProfile>,
    pub mirror: BayMirrorStatus,
    pub audio_endpoint: Option<u8>,
    pub amp_settings: Option<AmpZoneSettings>,
    pub filtered: Vec<DeviceUid>,
    /// The bay on another device this one is linked to, once discovered.
    pub linked_bay: Option<BayUid>,
    pub v2ip_uid: DeviceUid,
}

/// The volume the registry holds for `uid`: that of the bay its volume lives
/// on.
pub open spec fn spec_bay_volume(s: State, uid: BayUid) -> Option<VolumeMuteStatus> {
    match s.locate_bay_spec(spec_volume_bay(s.devices@, uid)) {
        Some((i, j)) => s.devices@[i].bays@[j].audio_volume,
        None => None,
    }
}

/// Whether `info` is a snapshot of bay `b` on device `d`, its volume and link
/// read through `s`.
pub open spec fn describes_bay(info: BayInfo, s: State, d: Device, b: Bay) -> bool {
    &&& info.uid == (BayUid { device: d.uid, port: b.port })
    &&& info.port_name == b.port_name
    &&& info.user_name@ == spec_user_name(b)
    &&& info.bay_num == b.bay_num
    &&& info.features == b.features
    &&& info.is_input == spec_is_input(b)
    &&& info.is_output == spec_is_output(b)
    &&& info.is_audio == spec_is_audio(b)
    &&& info.has_dolby == spec_has_dolby(b)
    &&& info.is_local == spec_is_local(b)
    &&& info.video_source == b.video_source
    &&& info.audio_source == spec_effective_audio_source(b)
    &&& info.power_status == b.power_status
    &&& info.hidden == b.hidden
    &&& info.faulty == b.faulty
    &&& info.poe_powered == b.poe_powered
    &&& info.hdbt_connected == b.hdbt_connected
    &&& info.signal_detected == b.signal_detected
    &&& info.hpd_detected == b.hpd_detected
    &&& info.cec_detected == b.cec_detected
    &&& info.encoder_disabled == b.encoder_disabled
    &&& info.decoder_disabled == b.decoder_disabled
    &&& info.signal_type == b.signal_type
    &&& info.signal_mode == b.signal_mode
    &&& info.arc == b.arc
    &&& info.volume == spec_bay_volume(s, BayUid { device: d.uid, port: b.port })
    &&& info.rc_type == b.rc_type
    &&& info.edid_profile == b.edid_profile
    &&& info.mirror == b.mirror
    &&& info.audio_endpoint == b.audio_endpoint
    &&& info.amp_settings == b.amp_settings
    &&& info.filtered@ == b.filtered@
    &&& info.linked_bay == spec_linked_bay(s.devices@, BayUid { device: d.uid, port: b.port })
    &&& info.v2ip_uid == b.v2ip_uid
}


impl BayInfo {
    /// A snapshot of bay `bay` on `device`, with its volume and link read
    /// through `state`.
    pub fn of(state: &State, device: &Device, bay: &Bay) -> (info: BayInfo)
        ensures
            describes_bay(info, *state, *device, *bay),
    {
        let uid = BayUid { device: device.uid, port: bay.port };
        let volume = match state.locate_bay(state.volume_bay(uid)) {
            Some((i, j)) => state.devices[i].bays[j].audio_volume,
            None => None,
        };
        let signal_type = match &bay.signal_type {
            Some(t) => Some(t.clone()),
            None => None,
        };
        BayInfo {
            uid,
            port_name: bay.port_name.clone(),
            user_name: String::from_str(bay.user_name()),
            bay_num: bay.bay_num,
            features: bay.features,
            is_input: bay.is_input(),
            is_output: bay.is_output(),
            is_audio: bay.is_audio(),
            has_dolby: bay.has_dolby(),
            is_local: bay.is_local(),
            video_source: bay.video_source,
            audio_source: bay.effective_audio_source(),
            power_status: bay.power_status,
            hidden: bay.hidden,
            faulty: bay.faulty,
            poe_powered: bay.poe_powered,
            hdbt_connected: bay.hdbt_connected,
            signal_detected: bay.signal_detected,
            hpd_detected: bay.hpd_detected,
            cec_detected: bay.cec_detected,
            encoder_disabled: bay.encoder_disabled,
            decoder_disabled: bay.decoder_disabled,
            signal_type,
            signal_mode: bay.signal_mode,
            arc: bay.arc,
            volume,
            rc_type: bay.rc_type,
            edid_profile: bay.edid_profile,
            mirror: bay.mirror,
            audio_endpoint: bay.audio_endpoint,
            amp_settings: bay.amp_settings,
            filtered: slice_to_vec(bay.filtered.as_slice()),
            linked_bay: state.linked_bay(uid),
            v2ip_uid: bay.v2ip_uid,
        }
    }
}

/// Every device heard from, in the order the registry holds them.
pub fn devices(state: &State) -> (r: Vec<DeviceUid>)
    ensures
        r@ == Seq::new(state.devices@.len(), |i: int| state.devices@[i].uid),
{
    let mut r: Vec<DeviceUid> = Vec::new();
    let mut i: usize = 0;
    while i < state.devices.len()
        invariant
            i <= state.devices@.len(),
            r@ == Seq::new(i as nat, |k: int| state.devices@[k].uid),
        decreases state.devices@.len() - i,
    {
        r.push(state.devices[i].uid);
        i = i + 1;
        assert(r@ =~= Seq::new(i as nat, |k: int| state.devices@[k].uid));
    }
    r
}

/// A snapshot of one device, if it has been heard from.
pub fn device(state: &State, uid: DeviceUid) -> (r: Option<DeviceInfo>)
    ensures
        has_device(state.devices@, uid) <==> r is Some,
        r matches Some(info) ==> describes_device(
            info,
            state.devices@[first_device(state.devices@, uid)],
        ),
{
    match state.locate_device(uid) {
        Some(i) => Some(DeviceInfo::of(&state.devices[i])),
        None => None,
    }
}

/// A snapshot of one bay, if its device has reported it.
pub fn bay(state: &State, uid: BayUid) -> (r: Option<BayInfo>)
    ensures
        state.locate_bay_spec(uid) is Some <==> r is Some,
        r matches Some(info) ==> ({
            let (i, j) = state.locate_bay_spec(uid)->0;
            describes_bay(info, *state, state.devices@[i], state.devices@[i].bays@[j])
        }),
{
    match state.locate_bay(uid) {
        Some((i, j)) => Some(BayInfo::of(state, &state.devices[i], &state.devices[i].bays[j])),
        None => None,
    }
}

/// The device with serial `serial`, the first when several claim it.
#[verifier::opaque]
pub open spec fn spec_device_by_serial(devices: Seq<Device>, serial: Seq<char>) -> Option<
    DeviceUid,
> {
    if exists|k: int| 0 <= k < devices.len() && devices[k].serial@ == serial {
        let k = choose|k: int|
            0 <= k < devices.len() && devices[k].serial@ == serial && forall|m: int|
                0 <= m < k ==> devices[m].serial@ != serial;
        Some(devices[k].uid)
    } else {
        None
    }
}

/// The device with the given serial number.
pub fn device_by_serial(state: &State, serial: &str) -> (r: Option<DeviceUid>)
    ensures
        r == spec_device_by_serial(state.devices@, serial@),
{
    proof {
        reveal(spec_device_by_serial);
    }
    match state.device_index_by_serial(serial) {
        Some(k) => {
            proof {
                let devices = state.devices@;
                let c = choose|c: int|
                    0 <= c < devices.len() && devices[c].serial@ == serial@ && forall|m: int|
                        0 <= m < c ==> devices[m].serial@ != serial@;
                assert(0 <= k < devices.len() && devices[k as int].serial@ == serial@);
                assert(c == k);
            }
            Some(state.devices[k].uid)
        },
        None => None,
    }
}

/// Whether some device has an identifier with exactly these bytes.
pub open spec fn has_device_bytes(devices: Seq<Device>, bytes: Seq<u8>) -> bool {
    exists|i: int| 0 <= i < devices.len() && devices[i].uid.bytes@ == bytes
}

/// The first device advertising the name `name`.
#[verifier::opaque]
pub open spec fn spec_device_by_name(devices: Seq<Device>, name: Seq<char>) -> Option<DeviceUid> {
    if exists|k: int| 0 <= k < devices.len() && devices[k].name@ == name {
        let k = choose|k: int|
            0 <= k < devices.len() && devices[k].name@ == name && forall|m: int|
                0 <= m < k ==> devices[m].name@ != name;
        Some(devices[k].uid)
    } else {
        None
    }
}

/// The device advertising the name `name`, the first when several do.
pub fn device_by_name(state: &State, name: &str) -> (r: Option<DeviceUid>)
    ensures
        r == spec_device_by_name(state.devices@, name@),
{
    proof {
        reveal(spec_device_by_name);
    }
    match state.device_index_by_name(name) {
        Some(k) => {
            proof {
                let devices = state.devices@;
                let c = choose|c: int|
                    0 <= c < devices.len() && devices[c].name@ == name@ && forall|m: int|
                        0 <= m < c ==> devices[m].name@ != name@;
                assert(0 <= k < devices.len() && devices[k as int].name@ == name@);
                assert(c == k);
            }
            Some(state.devices[k].uid)
        },
        None => None,
    }
}

/// Whether `r` is what a lookup of `name` by serial, name or identifier
/// finds: the device with that serial number, else the device advertising
/// that name, else the device heard from whose dotted-hex identifier the
/// text is, else nothing.
pub open spec fn resolves_to(devices: Seq<Device>, name: Seq<char>, r: Option<DeviceUid>) -> bool {
    match spec_device_by_serial(devices, name) {
        Some(u) => r == Some(u),
        None => match spec_device_by_name(devices, name) {
            Some(u) => r == Some(u),
            None => if parse_uid_text(name) is Some && has_device_bytes(
                devices,
                parse_uid_text(name)->0,
            ) {
                r matches Some(u) && u.bytes@ == parse_uid_text(name)->0
            } else {
                r is None
            },
        },
    }
}

/// The device heard from whose dotted-hex identifier `text` is, if any.
pub fn device_by_uid_text(state: &State, text: &str) -> (r: Option<DeviceUid>)
    ensures
        if parse_uid_text(text@) is Some && has_device_bytes(
            state.devices@,
            parse_uid_text(text@)->0,
        ) {
            r matches Some(u) && u.bytes@ == parse_uid_text(text@)->0
        } else {
            r is None
        },
{
    if let Ok(uid) = DeviceUid::parse(text) {
        if state.locate_device(uid).is_some() {
            return Some(uid);
        }
        proof {
            assert(!has_device_bytes(state.devices@, uid.bytes@));
        }
    }
    None
}

/// Finds a device by serial number, name or identifier, in that order.
pub fn resolve_device(state: &State, name: &str) -> (r: Option<DeviceUid>)
    ensures
        resolves_to(state.devices@, name@, r),
{
    let by_serial = device_by_serial(state, name);
    if by_serial.is_some() {
        return by_serial;
    }
    let by_name = device_by_name(state, name);
    if by_name.is_some() {
        return by_name;
    }
    device_by_uid_text(state, name)
}

/// The bay on `device` whose port is named `port_name`, such as `Output 1`.
pub fn bay_by_name(state: &State, device: DeviceUid, port_name: &str) -> (r: Option<BayUid>)
    ensures
        !has_device(state.devices@, device) ==> r is None,
        has_device(state.devices@, device) ==> {
            let d = state.devices@[first_device(state.devices@, device)];
            match r {
                Some(u) => u.device == d.uid && exists|j: int|
                    0 <= j < d.bays@.len() && d.bays@[j].port_name@ == port_name@ && d.bays@[j].port
                        == u.port && forall|k: int|
                        0 <= k < j ==> d.bays@[k].port_name@ != port_name@,
                None => forall|j: int|
                    0 <= j < d.bays@.len() ==> d.bays@[j].port_name@ != port_name@,
            }
        },
{
    match state.locate_device(device) {
        None => None,
        Some(i) => {
            let d = &state.devices[i];
            match d.bay_index_by_name(port_name) {
                Some(j) => Some(BayUid { device: d.uid, port: d.bays[j].port }),
                None => None,
            }
        },
    }
}

/// Whether bay `b` of `d` advertises `ip` as its video or audio group.
pub open spec fn streams_to(d: Device, b: Bay, ip: Ipv4, audio: bool) -> bool {
    match spec_source_for(d, b) {
        Some(st) => if audio {
            st.audio.ip == ip
        } else {
            st.video.ip == ip
        },
        None => false,
    }
}

/// Whether bay `j` of device `i` comes before bay `n` of device `m`.
pub open spec fn earlier(i: int, j: int, m: int, n: int) -> bool {
    i < m || (i == m && j < n)
}

/// Whether bay `j` of device `i` is one that advertises `ip`.
pub open spec fn is_stream_bay(devices: Seq<Device>, ip: Ipv4, audio: bool, i: int, j: int) -> bool {
    &&& 0 <= i < devices.len()
    &&& 0 <= j < devices[i].bays@.len()
    &&& streams_to(devices[i], devices[i].bays@[j], ip, audio)
}

/// Whether bay `u` advertises `ip` with the stream it is asked for.
fn bay_streams_to(d: &Device, b: &Bay, ip: Ipv4, audio: bool) -> (r: bool)
    ensures
        r == streams_to(*d, *b, ip, audio),
{
    match &d.v2ip_sources {
        Some(list) => {
            let n = b.bay_num as usize;
            if n < list.len() {
                if audio {
                    list[n].audio.ip == ip
                } else {
                    list[n].video.ip == ip
                }
            } else {
                false
            }
        },
        None => false,
    }
}

/// The source bay advertising the multicast group `ip` for its video, or its
/// audio when `audio` is set; the first, in registry order, when several do.
pub fn bay_by_stream_ip(state: &State, ip: Ipv4, audio: bool) -> (r: Option<BayUid>)
    ensures
        match r {
            Some(u) => exists|i: int, j: int|
                #![trigger is_stream_bay(state.devices@, ip, audio, i, j)]
                is_stream_bay(state.devices@, ip, audio, i, j) && u == (BayUid {
                    device: state.devices@[i].uid,
                    port: state.devices@[i].bays@[j].port,
                }) && forall|m: int, n: int|
                    earlier(m, n, i, j) ==> !is_stream_bay(state.devices@, ip, audio, m, n),
            None => forall|i: int, j: int| !is_stream_bay(state.devices@, ip, audio, i, j),
        },
{
    let devices = &state.devices;
    let mut i: usize = 0;
    while i < devices.len()
        invariant
            i <= devices@.len(),
            devices@ == state.devices@,
            forall|m: int, n: int| 0 <= m < i ==> !is_stream_bay(devices@, ip, audio, m, n),
        decreases devices@.len() - i,
    {
        let d = &devices[i];
        let mut j: usize = 0;
        while j < d.bays.len()
            invariant
                i < devices@.len(),
                *d == devices@[i as int],
                devices@ == state.devices@,
                j <= d.bays@.len(),
                forall|m: int, n: int| 0 <= m < i ==> !is_stream_bay(devices@, ip, audio, m, n),
                forall|n: int| 0 <= n < j ==> !is_stream_bay(devices@, ip, audio, i as int, n),
            decreases d.bays@.len() - j,
        {
            if bay_streams_to(d, &d.bays[j], ip, audio) {
                proof {
                    assert(is_stream_bay(devices@, ip, audio, i as int, j as int));
                    assert forall|m: int, n: int|
                        earlier(m, n, i as int, j as int) implies !is_stream_bay(
                        devices@,
                        ip,
                        audio,
                        m,
                        n,
                    ) by {
                        if m == i {
                            if 0 <= n < j {
                            }
                        }
                    }
                }
                return Some(BayUid { device: d.uid, port: d.bays[j].port });
            }
            j = j + 1;
        }
        proof {
            assert forall|n: int| !is_stream_bay(devices@, ip, audio, i as int, n) by {
                if 0 <= n < d.bays@.len() {
                }
            }
        }
        i = i + 1;
    }
    None
}

/// Why a read of one of a device's subsystems found nothing.
#[derive(Clone, Copy, Debug, PartialEq, Eq)]
pub enum Missing {
    /// The device has not been heard from.
    Device,
    /// The device has not reported the subsystem.
    NotReported,
    /// The device reported the subsystem without the part asked for.
    Part,
}

/// The first endpoint with identifier `id`; meaningful when there is one.
pub open spec fn first_endpoint(list: Seq<AudioEndpoint>, id: u8) -> int {
    choose|k: int|
        0 <= k < list.len() && list[k].id == id && forall|m: int| 0 <= m < k ==> list[m].id != id
}

/// The endpoints hanging off endpoint `id` of device `uid`, or why there are
/// none to read.
pub open spec fn spec_endpoint_children(s: State, uid: DeviceUid, id: u8) -> Result<
    Seq<u8>,
    Missing,
> {
    if !has_device(s.devices@, uid) {
        Err(Missing::Device)
    } else {
        match s.devices@[first_device(s.devices@, uid)].audio {
            None => Err(Missing::NotReported),
            Some(list) => if exists|k: int| 0 <= k < list@.len() && list@[k].id == id {
                Ok(list@[first_endpoint(list@, id)].children@)
            } else {
                Err(Missing::Part)
            },
        }
    }
}

/// The endpoints hanging off one audio endpoint.
pub fn endpoint_children(state: &State, uid: DeviceUid, id: u8) -> (r: Result<Vec<u8>, Missing>)
    ensures
        match r {
            Ok(c) => spec_endpoint_children(*state, uid, id) == Ok::<Seq<u8>, Missing>(c@),
            Err(m) => spec_endpoint_children(*state, uid, id) == Err::<Seq<u8>, Missing>(m),
        },
{
    let i = match state.locate_device(uid) {
        Some(i) => i,
        None => return Err(Missing::Device),
    };
    let list = match &state.devices[i].audio {
        Some(list) => list,
        None => return Err(Missing::NotReported),
    };
    let mut k: usize = 0;
    while k < list.len()
        invariant
            k <= list@.len(),
            forall|m: int| 0 <= m < k ==> list@[m].id != id,
            i < state.devices@.len(),
            state.devices@[i as int].audio == Some(*list),
            i as int == first_device(state.devices@, uid),
            has_device(state.devices@, uid),
        decreases list@.len() - k,
    {
        if list[k].id == id {
            proof {
                let c = first_endpoint(list@, id);
                assert(0 <= k < list@.len() && list@[k as int].id == id);
                assert(c == k);
            }
            let children = slice_to_vec(list[k].children.as_slice());
            return Ok(children);
        }
        k = k + 1;
    }
    Err(Missing::Part)
}

/// Every endpoint of a device's audio tree, once reported.
pub fn audio_endpoints(state: &State, uid: DeviceUid) -> (r: Result<&Vec<AudioEndpoint>, Missing>)
    ensures
        !has_device(state.devices@, uid) ==> r == Err::<&Vec<AudioEndpoint>, Missing>(
            Missing::Device,
        ),
        has_device(state.devices@, uid) ==> match state.devices@[first_device(
            state.devices@,
            uid,
        )].audio {
            None => r == Err::<&Vec<AudioEndpoint>, Missing>(Missing::NotReported),
            Some(list) => r matches Ok(l) && l@ == list@,
        },
{
    match state.locate_device(uid) {
        None => Err(Missing::Device),
        Some(i) => match &state.devices[i].audio {
            Some(list) => Ok(list),
            None => Err(Missing::NotReported),
        },
    }
}

/// The device with identifier `uid`, as the registry holds it, if known.
pub open spec fn found_device(s: State, uid: DeviceUid) -> Option<Device> {
    if has_device(s.devices@, uid) {
        Some(s.devices@[first_device(s.devices@, uid)])
    } else {
        None
    }
}

/// The streams a device's source bays advertise, once reported.
pub fn v2ip_sources(state: &State, uid: DeviceUid) -> (r: Option<Vec<V2ipStreamSources>>)
    ensures
        match found_device(*state, uid) {
            None => r is None,
            Some(d) => match d.v2ip_sources {
                None => r is None,
                Some(list) => r matches Some(l) && l@ == list@,
            },
        },
{
    match state.locate_device(uid) {
        None => None,
        Some(i) => match &state.devices[i].v2ip_sources {
            None => None,
            Some(list) => Some(slice_to_vec(list.as_slice())),
        },
    }
}

/// A V2IP device's own encoder configuration, once reported.
pub fn v2ip_details(state: &State, uid: DeviceUid) -> (r: Option<DeviceV2ipDetails>)
    ensures
        r == (match found_device(*state, uid) {
            None => None,
            Some(d) => d.v2ip_details,
        }),
{
    match state.locate_device(uid) {
        None => None,
        Some(i) => state.devices[i].v2ip_details,
    }
}

/// The streams a V2IP sink is subscribed to, once reported.
pub fn v2ip_sink(state: &State, uid: DeviceUid) -> (r: Option<DeviceV2ipSink>)
    ensures
        r == (match found_device(*state, uid) {
            None => None,
            Some(d) => d.v2ip_sink,
        }),
{
    match state.locate_device(uid) {
        None => None,
        Some(i) => state.devices[i].v2ip_sink,
    }
}

/// Transport statistics a V2IP device reports, once reported.
pub fn v2ip_stats(state: &State, uid: DeviceUid) -> (r: Option<V2ipDeviceStats>)
    ensures
        r == (match found_device(*state, uid) {
            None => None,
            Some(d) => d.v2ip_stats,
        }),
{
    match state.locate_device(uid) {
        None => None,
        Some(i) => state.devices[i].v2ip_stats,
    }
}

/// The video-wall tiling a V2IP device is configured for, once reported.
pub fn v2ip_tiling(state: &State, uid: DeviceUid) -> (r: Option<V2ipTilingConfig>)
    ensures
        r == (match found_device(*state, uid) {
            None => None,
            Some(d) => d.tiling,
        }),
{
    match state.locate_device(uid) {
        None => None,
        Some(i) => state.devices[i].tiling,
    }
}

/// An amplifier's Dolby decoder settings, once reported.
pub fn dolby_settings(state: &State, uid: DeviceUid) -> (r: Option<AmpDolbySettings>)
    ensures
        r == (match found_device(*state, uid) {
            None => None,
            Some(d) => d.dolby_settings,
        }),
{
    match state.locate_device(uid) {
        None => None,
        Some(i) => state.devices[i].dolby_settings,
    }
}

/// The multiviewer layout a device is showing, once reported.
pub fn multiviewer_status(state: &State, uid: DeviceUid) -> (r: Option<&MultiviewerStatus>)
    ensures
        r == (match found_device(*state, uid) {
            None => None,
            Some(d) => match d.multiviewer {
                None => None,
                Some(m) => Some(&m),
            },
        }),
{
    match state.locate_device(uid) {
        None => None,
        Some(i) => match &state.devices[i].multiviewer {
            None => None,
            Some(m) => Some(m),
        },
    }
}

/// A device's remote-control settings, once reported.
pub fn rc_settings(state: &State, uid: DeviceUid) -> (r: Option<&RcSettings>)
    ensures
        r == (match found_device(*state, uid) {
            None => None,
            Some(d) => match d.rc_settings {
                None => None,
                Some(m) => Some(&m),
            },
        }),
{
    match state.locate_device(uid) {
        None => None,
        Some(i) => match &state.devices[i].rc_settings {
            None => None,
            Some(m) => Some(m),
        },
    }
}

/// Every network port a device reports, in port order; none for a device
/// not heard from.
pub fn network_status(state: &State, uid: DeviceUid) -> (r: Option<&Vec<NetworkPortStatus>>)
    ensures
        r == (match found_device(*state, uid) {
            None => None,
            Some(d) => Some(&d.network),
        }),
{
    match state.locate_device(uid) {
        None => None,
        Some(i) => Some(&state.devices[i].network),
    }
}

/// The mesh topology a device reports; empty for a device not heard from.
pub fn topology(state: &State, uid: DeviceUid) -> (r: Vec<TopologyEntry>)
    ensures
        r@ == (match found_device(*state, uid) {
            None => Seq::<TopologyEntry>::empty(),
            Some(d) => d.topology@,
        }),
{
    match state.locate_device(uid) {
        None => Vec::new(),
        Some(i) => slice_to_vec(state.devices[i].topology.as_slice()),
    }
}

/// Every firmware component a device reports, in component order; none for
/// a device not heard from.
pub fn firmware(state: &State, uid: DeviceUid) -> (r: Option<&Vec<FirmwareVersion>>)
    ensures
        r == (match found_device(*state, uid) {
            None => None,
            Some(d) => Some(&d.firmware),
        }),
{
    match state.locate_device(uid) {
        None => None,
        Some(i) => Some(&state.devices[i].firmware),
    }
}

/// The EDID a device reported for its output side, or for its input side,
/// once reported.
pub fn edid(state: &State, uid: DeviceUid, output: bool) -> (r: Option<Vec<u8>>)
    ensures
        match found_device(*state, uid) {
            None => r is None,
            Some(d) => match (if output { d.edid_output } else { d.edid_input }) {
                None => r is None,
                Some(e) => r matches Some(v) && v@ == e@,
            },
        },
{
    match state.locate_device(uid) {
        None => None,
        Some(i) => {
            let d = &state.devices[i];
            let e = if output { &d.edid_output } else { &d.edid_input };
            match e {
                None => None,
                Some(bytes) => Some(slice_to_vec(bytes.as_slice())),
            }
        },
    }
}

} // verus!
