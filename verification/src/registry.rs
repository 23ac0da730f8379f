//! This client's copy of what devices have reported: devices keyed by their
//! identifier, their bays keyed by port, and the links between bays.
//!
//! Lookups take the first entry with a key, so a registry that kept a key
//! twice would still answer the same way every time.

use vstd::prelude::*;

use crate::bits::{
    MXR_BAY_AUDIO_AMP_OUT, MXR_BAY_AUDIO_ANA_IN, MXR_BAY_AUDIO_ANA_OUT, MXR_BAY_AUDIO_DIG_IN,
    MXR_BAY_AUDIO_DIG_OUT, MXR_BAY_DOLBY, MXR_BAY_HDMI_IN, MXR_BAY_HDMI_OUT,
    MXR_BAY_V2IP_SINK_LOCAL, MXR_BAY_V2IP_SINK_REMOTE, MXR_BAY_V2IP_SOURCE_LOCAL,
    MXR_BAY_V2IP_SOURCE_REMOTE, MXR_FEATURE_MULTIVIEWER,
};
use crate::frame::Frame;
use crate::ident::{BayUid, DeviceUid};
use crate::net::Ipv4;
use crate::types::{
    AmpDolbySettings, AmpZoneSettings, ArcStatus, AudioEndpoint, BayMirrorStatus, DeviceStatus,
    DeviceV2ipDetails, DeviceV2ipSink, EdidProfile, FirmwareVersion, MultiviewerStatus,
    MxrSignalType, NetworkPortStatus, PowerStatus, RcSettings, RcType, TopologyEntry,
    V2ipDeviceStats, V2ipStreamSources, V2ipTilingConfig, VolumeMuteStatus,
};

verus! {

/// The link record a bay carries: the far end's device serial and the name of
/// the bay there.
#[derive(Clone, Debug, PartialEq, Eq)]
pub struct BayLink {
    pub serial: String,
    pub bay_name: String,
}

/// One bay as the registry holds it.
#[derive(Clone, Debug)]
pub struct Bay {
    pub port: u16,
    /// The bay number the device's own API and topology use.
    pub bay_num: u8,
    /// What the bay is wired for, as `MXR_BAY_*` bits; bits 24-31 name the
    /// Dolby input that drives an amplifier output.
    pub features: u32,
    /// The name the device gives the port, such as `Output 1`.
    pub port_name: String,
    /// The name the installer gave the bay, if any.
    pub user_name: Option<String>,
    pub video_source: Option<BayUid>,
    pub audio_source: Option<BayUid>,
    pub audio_volume: Option<VolumeMuteStatus>,
    pub hidden: Option<bool>,
    pub power_status: Option<PowerStatus>,
    pub faulty: Option<bool>,
    pub poe_powered: Option<bool>,
    pub hdbt_connected: Option<bool>,
    pub signal_detected: Option<bool>,
    pub hpd_detected: Option<bool>,
    pub cec_detected: Option<bool>,
    pub encoder_disabled: Option<bool>,
    pub decoder_disabled: Option<bool>,
    pub signal_type: Option<String>,
    pub signal_mode: MxrSignalType,
    pub arc: ArcStatus,
    pub rc_type: Option<RcType>,
    pub edid_profile: Option<EdidProfile>,
    pub mirror: BayMirrorStatus,
    pub audio_endpoint: Option<u8>,
    pub amp_settings: Option<AmpZoneSettings>,
    pub filtered: Vec<DeviceUid>,
    pub link: Option<BayLink>,
    pub v2ip_uid: DeviceUid,
}

/// One device as the registry holds it.
#[derive(Clone, Debug)]
pub struct Device {
    pub uid: DeviceUid,
    pub name: String,
    pub serial: String,
    /// The highest protocol version the device can decode, zero before it
    /// has said.
    pub supported_protocol: u16,
    /// What the device says it can do, as `MXR_FEATURE_*` bits.
    pub features: u32,
    /// Every bay, in port order.
    pub bays: Vec<Bay>,
    /// The streams its source bays advertise, once reported.
    pub v2ip_sources: Option<Vec<V2ipStreamSources>>,
    pub dolby_settings: Option<AmpDolbySettings>,
    /// Set once a reboot was asked for, so the silence after it does not read
    /// as going offline.
    pub rebooting: bool,
    /// A friendly model name, as derived from what the device reports.
    pub model: String,
    /// Firmware version string from the hello frame.
    pub version: String,
    /// The address the device was last heard from.
    pub address: Option<Ipv4>,
    /// Online, offline, booting or rebooting, as last assessed.
    pub status: DeviceStatus,
    /// Whether the device was heard from recently enough to count as present.
    pub online: bool,
    /// Whether every part of the device's configuration has arrived.
    pub configuration_complete: bool,
    /// Whether the device's firmware initialises the configuration it
    /// broadcasts.
    pub config_initialised: bool,
    /// Temperatures the device reports, in degrees Celsius, in its own order.
    pub temperatures: Vec<u8>,
    /// The mesh master this device follows, or the zero identifier.
    pub mesh_master: DeviceUid,
    /// How many HDBaseT outputs this model has.
    pub hdbt_outputs: u8,
    /// Whether installation was marked complete, once the device has said.
    pub setup_done: Option<bool>,
    /// The installer identifier the device carries, if reported.
    pub installer_id: Option<u16>,
    /// A status code and message the device reports about itself.
    pub system_status: Option<(u16, String)>,
    /// When its latest hello arrived, in nanoseconds on the client's clock.
    pub hello_received: u64,
    /// Its audio endpoint tree, in the order reported, once reported.
    pub audio: Option<Vec<AudioEndpoint>>,
    /// A V2IP device's own encoder configuration, once reported.
    pub v2ip_details: Option<DeviceV2ipDetails>,
    /// The streams a V2IP sink is subscribed to, once reported.
    pub v2ip_sink: Option<DeviceV2ipSink>,
    /// Transport statistics, once reported.
    pub v2ip_stats: Option<V2ipDeviceStats>,
    /// The video-wall tiling, once reported.
    pub tiling: Option<V2ipTilingConfig>,
    /// The multiviewer layout, once reported.
    pub multiviewer: Option<MultiviewerStatus>,
    /// The remote-control settings, once reported.
    pub rc_settings: Option<RcSettings>,
    /// Every network port reported, in port order.
    pub network: Vec<NetworkPortStatus>,
    /// The mesh topology, as reported.
    pub topology: Vec<TopologyEntry>,
    /// Every firmware component reported, in component order.
    pub firmware: Vec<FirmwareVersion>,
    /// The EDID of the device's input side, once reported.
    pub edid_input: Option<Vec<u8>>,
    /// The EDID of the device's output side, once reported.
    pub edid_output: Option<Vec<u8>>,
}

/// Everything this client has heard.
#[derive(Clone, Debug)]
pub struct State {
    pub devices: Vec<Device>,
    /// Frames from other senders that parsed.
    pub frames_received: u64,
}

/// Whether `features` has any of `bits`.
pub open spec fn has_any(features: u32, bits: u32) -> bool {
    features & bits != 0
}

pub open spec fn spec_is_input(b: Bay) -> bool {
    has_any(
        b.features,
        MXR_BAY_HDMI_IN | MXR_BAY_AUDIO_DIG_IN | MXR_BAY_AUDIO_ANA_IN | MXR_BAY_V2IP_SOURCE_LOCAL
            | MXR_BAY_V2IP_SOURCE_REMOTE,
    )
}

pub open spec fn spec_is_output(b: Bay) -> bool {
    has_any(
        b.features,
        MXR_BAY_HDMI_OUT | MXR_BAY_AUDIO_DIG_OUT | MXR_BAY_AUDIO_ANA_OUT | MXR_BAY_AUDIO_AMP_OUT
            | MXR_BAY_V2IP_SINK_LOCAL | MXR_BAY_V2IP_SINK_REMOTE,
    )
}

pub open spec fn spec_is_audio(b: Bay) -> bool {
    has_any(
        b.features,
        MXR_BAY_AUDIO_DIG_IN | MXR_BAY_AUDIO_ANA_IN | MXR_BAY_AUDIO_DIG_OUT | MXR_BAY_AUDIO_ANA_OUT
            | MXR_BAY_AUDIO_AMP_OUT,
    ) && !has_any(b.features, MXR_BAY_HDMI_IN | MXR_BAY_HDMI_OUT)
}

pub open spec fn spec_is_v2ip_sink(b: Bay) -> bool {
    has_any(b.features, MXR_BAY_V2IP_SINK_LOCAL | MXR_BAY_V2IP_SINK_REMOTE)
}

pub open spec fn spec_is_local(b: Bay) -> bool {
    !has_any(b.features, MXR_BAY_V2IP_SOURCE_REMOTE | MXR_BAY_V2IP_SINK_REMOTE)
}

pub open spec fn spec_has_volume_control(b: Bay) -> bool {
    has_any(b.features, MXR_BAY_AUDIO_AMP_OUT)
}

pub open spec fn spec_has_dolby(b: Bay) -> bool {
    has_any(b.features, MXR_BAY_DOLBY)
}

/// The name a bay is shown by: the installer's, else the port's.
pub open spec fn spec_user_name(b: Bay) -> Seq<char> {
    match b.user_name {
        Some(n) => n@,
        None => b.port_name@,
    }
}

/// The audio source a bay reports: its own once given one, else its video
/// source.
pub open spec fn spec_effective_audio_source(b: Bay) -> Option<BayUid> {
    match b.audio_source {
        Some(s) => Some(s),
        None => b.video_source,
    }
}

impl Bay {
    /// Whether the bay takes a signal in.
    pub fn is_input(&self) -> (r: bool)
        ensures
            r == spec_is_input(*self),
    {
        self.features & (MXR_BAY_HDMI_IN | MXR_BAY_AUDIO_DIG_IN | MXR_BAY_AUDIO_ANA_IN
            | MXR_BAY_V2IP_SOURCE_LOCAL | MXR_BAY_V2IP_SOURCE_REMOTE) != 0
    }

    /// Whether the bay puts a signal out.
    pub fn is_output(&self) -> (r: bool)
        ensures
            r == spec_is_output(*self),
    {
        self.features & (MXR_BAY_HDMI_OUT | MXR_BAY_AUDIO_DIG_OUT | MXR_BAY_AUDIO_ANA_OUT
            | MXR_BAY_AUDIO_AMP_OUT | MXR_BAY_V2IP_SINK_LOCAL | MXR_BAY_V2IP_SINK_REMOTE) != 0
    }

    /// Whether the bay carries audio and no video.
    pub fn is_audio(&self) -> (r: bool)
        ensures
            r == spec_is_audio(*self),
    {
        self.features & (MXR_BAY_AUDIO_DIG_IN | MXR_BAY_AUDIO_ANA_IN | MXR_BAY_AUDIO_DIG_OUT
            | MXR_BAY_AUDIO_ANA_OUT | MXR_BAY_AUDIO_AMP_OUT) != 0 && self.features & (
        MXR_BAY_HDMI_IN | MXR_BAY_HDMI_OUT) == 0
    }

    /// Whether the bay is a V2IP sink, here or across the mesh.
    pub fn is_v2ip_sink(&self) -> (r: bool)
        ensures
            r == spec_is_v2ip_sink(*self),
    {
        self.features & (MXR_BAY_V2IP_SINK_LOCAL | MXR_BAY_V2IP_SINK_REMOTE) != 0
    }

    /// Whether the bay is on its device rather than reached through the mesh.
    pub fn is_local(&self) -> (r: bool)
        ensures
            r == spec_is_local(*self),
    {
        self.features & (MXR_BAY_V2IP_SOURCE_REMOTE | MXR_BAY_V2IP_SINK_REMOTE) == 0
    }

    /// Whether the bay has a volume control of its own.
    pub fn has_volume_control(&self) -> (r: bool)
        ensures
            r == spec_has_volume_control(*self),
    {
        self.features & MXR_BAY_AUDIO_AMP_OUT != 0
    }

    /// Whether the bay can decode Dolby.
    pub fn has_dolby(&self) -> (r: bool)
        ensures
            r == spec_has_dolby(*self),
    {
        self.features & MXR_BAY_DOLBY != 0
    }

    /// The name the bay is shown by.
    pub fn user_name(&self) -> (n: &str)
        ensures
            n@ == spec_user_name(*self),
    {
        match &self.user_name {
            Some(n) => n.as_str(),
            None => self.port_name.as_str(),
        }
    }

    /// The audio source the bay reports.
    pub fn effective_audio_source(&self) -> (s: Option<BayUid>)
        ensures
            s == spec_effective_audio_source(*self),
    {
        match self.audio_source {
            Some(s) => Some(s),
            None => self.video_source,
        }
    }
}

impl Bay {
    /// A bay as first reported: its port, number, wiring and port name, with
    /// nothing else said yet.
    pub fn new(port: u16, bay_num: u8, features: u32, port_name: String) -> (b: Bay)
        ensures
            b.port == port,
            b.bay_num == bay_num,
            b.features == features,
            b.port_name == port_name,
            b.user_name is None,
            b.audio_volume is None,
            b.link is None,
            b.video_source is None,
            b.audio_source is None,
            b.filtered@.len() == 0,
    {
        Bay {
            port,
            bay_num,
            features,
            port_name,
            user_name: None,
            video_source: None,
            audio_source: None,
            audio_volume: None,
            hidden: None,
            power_status: None,
            faulty: None,
            poe_powered: None,
            hdbt_connected: None,
            signal_detected: None,
            hpd_detected: None,
            cec_detected: None,
            encoder_disabled: None,
            decoder_disabled: None,
            signal_type: None,
            signal_mode: MxrSignalType(0),
            arc: ArcStatus::Inactive,
            rc_type: None,
            edid_profile: None,
            mirror: BayMirrorStatus { target: None },
            audio_endpoint: None,
            amp_settings: None,
            filtered: Vec::new(),
            link: None,
            v2ip_uid: DeviceUid { bytes: [0u8; 16] },
        }
    }
}

impl Device {
    /// A device as first heard from: its identifier, name and serial, with
    /// no bays and nothing else reported.
    pub fn new(uid: DeviceUid, name: String, serial: String) -> (d: Device)
        ensures
            d.uid == uid,
            d.name == name,
            d.serial == serial,
            d.supported_protocol == 0,
            d.features == 0,
            d.bays@.len() == 0,
            d.v2ip_sources is None,
            d.dolby_settings is None,
            !d.rebooting,
            d.audio is None,
            d.v2ip_details is None,
            d.v2ip_sink is None,
            d.v2ip_stats is None,
            d.tiling is None,
            d.multiviewer is None,
            d.rc_settings is None,
            d.network@.len() == 0,
            d.topology@.len() == 0,
            d.firmware@.len() == 0,
            d.edid_input is None,
            d.edid_output is None,
    {
        Device {
            uid,
            name,
            serial,
            supported_protocol: 0,
            features: 0,
            bays: Vec::new(),
            v2ip_sources: None,
            dolby_settings: None,
            rebooting: false,
            model: String::new(),
            version: String::new(),
            address: None,
            status: DeviceStatus::Online,
            online: true,
            configuration_complete: false,
            config_initialised: false,
            temperatures: Vec::new(),
            mesh_master: DeviceUid { bytes: [0u8; 16] },
            hdbt_outputs: 0,
            setup_done: None,
            installer_id: None,
            system_status: None,
            hello_received: 0,
            audio: None,
            v2ip_details: None,
            v2ip_sink: None,
            v2ip_stats: None,
            tiling: None,
            multiviewer: None,
            rc_settings: None,
            network: Vec::new(),
            topology: Vec::new(),
            firmware: Vec::new(),
            edid_input: None,
            edid_output: None,
        }
    }
}

/// Whether `i` is the first device in `devices` with identifier `uid`.
pub open spec fn is_first_device(devices: Seq<Device>, uid: DeviceUid, i: int) -> bool {
    &&& 0 <= i < devices.len()
    &&& devices[i].uid.bytes@ == uid.bytes@
    &&& forall|j: int| 0 <= j < i ==> devices[j].uid.bytes@ != uid.bytes@
}

/// Whether any device in `devices` has identifier `uid`.
pub open spec fn has_device(devices: Seq<Device>, uid: DeviceUid) -> bool {
    exists|i: int| 0 <= i < devices.len() && devices[i].uid.bytes@ == uid.bytes@
}

/// Whether `j` is the first bay in `bays` on `port`.
pub open spec fn is_first_bay(bays: Seq<Bay>, port: u16, j: int) -> bool {
    &&& 0 <= j < bays.len()
    &&& bays[j].port == port
    &&& forall|k: int| 0 <= k < j ==> bays[k].port != port
}

pub open spec fn has_bay(bays: Seq<Bay>, port: u16) -> bool {
    exists|j: int| 0 <= j < bays.len() && bays[j].port == port
}

/// The first-match index is unique.
pub proof fn lemma_first_device_unique(devices: Seq<Device>, uid: DeviceUid, i: int, k: int)
    requires
        is_first_device(devices, uid, i),
        is_first_device(devices, uid, k),
    ensures
        i == k,
{
}

pub proof fn lemma_first_bay_unique(bays: Seq<Bay>, port: u16, j: int, k: int)
    requires
        is_first_bay(bays, port, j),
        is_first_bay(bays, port, k),
    ensures
        j == k,
{
}

impl Device {
    /// Where the bay on `port` is, if the device has reported one.
    pub fn bay_index(&self, port: u16) -> (r: Option<usize>)
        ensures
            match r {
                Some(j) => is_first_bay(self.bays@, port, j as int),
                None => !has_bay(self.bays@, port),
            },
    {
        let mut j: usize = 0;
        while j < self.bays.len()
            invariant
                j <= self.bays@.len(),
                forall|k: int| 0 <= k < j ==> self.bays@[k].port != port,
            decreases self.bays@.len() - j,
        {
            if self.bays[j].port == port {
                return Some(j);
            }
            j = j + 1;
        }
        None
    }

    /// Where the bay whose port name is `name` is.
    pub fn bay_index_by_name(&self, name: &str) -> (r: Option<usize>)
        ensures
            match r {
                Some(j) => 0 <= j < self.bays@.len() && self.bays@[j as int].port_name@ == name@
                    && forall|k: int| 0 <= k < j ==> self.bays@[k].port_name@ != name@,
                None => forall|k: int|
                    0 <= k < self.bays@.len() ==> self.bays@[k].port_name@ != name@,
            },
    {
        let mut j: usize = 0;
        let wanted = String::from_str(name);
        while j < self.bays.len()
            invariant
                j <= self.bays@.len(),
                wanted@ == name@,
                forall|k: int| 0 <= k < j ==> self.bays@[k].port_name@ != name@,
            decreases self.bays@.len() - j,
        {
            if self.bays[j].port_name == wanted {
                return Some(j);
            }
            j = j + 1;
        }
        None
    }

    /// Where the input bay the installer named `name` is.
    pub fn bay_index_by_user_name(&self, name: &str) -> (r: Option<usize>)
        ensures
            match r {
                Some(j) => 0 <= j < self.bays@.len() && spec_user_name(self.bays@[j as int])
                    == name@ && forall|k: int|
                    0 <= k < j ==> spec_user_name(self.bays@[k]) != name@,
                None => forall|k: int|
                    0 <= k < self.bays@.len() ==> spec_user_name(self.bays@[k]) != name@,
            },
    {
        let mut j: usize = 0;
        let wanted = String::from_str(name);
        while j < self.bays.len()
            invariant
                j <= self.bays@.len(),
                wanted@ == name@,
                forall|k: int| 0 <= k < j ==> spec_user_name(self.bays@[k]) != name@,
            decreases self.bays@.len() - j,
        {
            let shown = String::from_str(self.bays[j].user_name());
            if shown == wanted {
                return Some(j);
            }
            j = j + 1;
        }
        None
    }

    /// Whether the device is a multiviewer.
    pub fn is_multiviewer(&self) -> (b: bool)
        ensures
            b == has_any(self.features, MXR_FEATURE_MULTIVIEWER),
    {
        self.features & MXR_FEATURE_MULTIVIEWER != 0
    }
}

impl State {
    /// A registry that has heard nothing.
    pub fn new() -> (s: State)
        ensures
            s.devices@.len() == 0,
            s.frames_received == 0,
            s.well_formed(),
    {
        State { devices: Vec::new(), frames_received: 0 }
    }

    /// Where the device with identifier `uid` is, if it has been heard from.
    pub fn device_index(&self, uid: DeviceUid) -> (r: Option<usize>)
        ensures
            match r {
                Some(i) => is_first_device(self.devices@, uid, i as int),
                None => !has_device(self.devices@, uid),
            },
    {
        let mut i: usize = 0;
        while i < self.devices.len()
            invariant
                i <= self.devices@.len(),
                forall|j: int| 0 <= j < i ==> self.devices@[j].uid.bytes@ != uid.bytes@,
            decreases self.devices@.len() - i,
        {
            if self.devices[i].uid.same(&uid) {
                return Some(i);
            }
            i = i + 1;
        }
        None
    }

    /// Where the device with serial number `serial` is.
    pub fn device_index_by_serial(&self, serial: &str) -> (r: Option<usize>)
        ensures
            match r {
                Some(i) => 0 <= i < self.devices@.len() && self.devices@[i as int].serial@
                    == serial@ && forall|j: int|
                    0 <= j < i ==> self.devices@[j].serial@ != serial@,
                None => forall|j: int|
                    0 <= j < self.devices@.len() ==> self.devices@[j].serial@ != serial@,
            },
    {
        let mut i: usize = 0;
        let wanted = String::from_str(serial);
        while i < self.devices.len()
            invariant
                i <= self.devices@.len(),
                wanted@ == serial@,
                forall|j: int| 0 <= j < i ==> self.devices@[j].serial@ != serial@,
            decreases self.devices@.len() - i,
        {
            if self.devices[i].serial == wanted {
                return Some(i);
            }
            i = i + 1;
        }
        None
    }

    /// Where the first device advertising the name `name` is.
    pub fn device_index_by_name(&self, name: &str) -> (r: Option<usize>)
        ensures
            match r {
                Some(i) => 0 <= i < self.devices@.len() && self.devices@[i as int].name@
                    == name@ && forall|j: int|
                    0 <= j < i ==> self.devices@[j].name@ != name@,
                None => forall|j: int|
                    0 <= j < self.devices@.len() ==> self.devices@[j].name@ != name@,
            },
    {
        let mut i: usize = 0;
        let wanted = String::from_str(name);
        while i < self.devices.len()
            invariant
                i <= self.devices@.len(),
                wanted@ == name@,
                forall|j: int| 0 <= j < i ==> self.devices@[j].name@ != name@,
            decreases self.devices@.len() - i,
        {
            if self.devices[i].name == wanted {
                return Some(i);
            }
            i = i + 1;
        }
        None
    }

    /// Where the bay `uid` is: its device's place and its own.
    pub fn bay_position(&self, uid: BayUid) -> (r: Option<(usize, usize)>)
        ensures
            match r {
                Some((i, j)) => is_first_device(self.devices@, uid.device, i as int)
                    && is_first_bay(self.devices@[i as int].bays@, uid.port, j as int),
                None => !has_device(self.devices@, uid.device) || exists|i: int|
                    is_first_device(self.devices@, uid.device, i) && !has_bay(
                        self.devices@[i].bays@,
                        uid.port,
                    ),
            },
    {
        match self.device_index(uid.device) {
            None => None,
            Some(i) => match self.devices[i].bay_index(uid.port) {
                None => None,
                Some(j) => Some((i, j)),
            },
        }
    }
}

/// The first device with identifier `uid`; meaningful when there is one.
pub open spec fn first_device(devices: Seq<Device>, uid: DeviceUid) -> int {
    choose|i: int| is_first_device(devices, uid, i)
}

/// The first bay on `port`; meaningful when there is one.
pub open spec fn first_bay(bays: Seq<Bay>, port: u16) -> int {
    choose|j: int| is_first_bay(bays, port, j)
}

/// How many of an amplifier's outputs its Dolby mode drives as one group:
/// three in 3-zone mode, four in 4-zone mode, none otherwise.
pub open spec fn dolby_zone_count(d: Device) -> int {
    match d.dolby_settings {
        Some(s) => if s.mode == 1 {
            3
        } else if s.mode == 2 {
            4
        } else {
            0
        },
        None => 0,
    }
}

/// Whether `b` is one of the zones `d`'s Dolby group drives: an amplifier
/// output carrying the Dolby bit among the group's first outputs.
///
/// The bit alone does not make a member: an output may carry it from
/// outside the group.
pub open spec fn in_dolby_group(d: Device, b: Bay) -> bool {
    &&& has_any(b.features, MXR_BAY_AUDIO_AMP_OUT)
    &&& spec_has_dolby(b)
    &&& (b.bay_num as int) < dolby_zone_count(d)
}

/// Whether `b` is the zone that stands for the whole group.
pub open spec fn leads_dolby_group(d: Device, b: Bay) -> bool {
    in_dolby_group(d, b) && b.bay_num == 0
}

/// The bays of `d` after a volume is reported against bay `j`: that bay takes
/// it, and when it leads a Dolby group, so does every zone of the group.
pub open spec fn bays_after_volume(d: Device, j: int, v: VolumeMuteStatus) -> Seq<Bay> {
    Seq::new(
        d.bays@.len(),
        |k: int|
            if k == j || (leads_dolby_group(d, d.bays@[j]) && in_dolby_group(d, d.bays@[k])) {
                Bay { audio_volume: Some(v), ..d.bays@[k] }
            } else {
                d.bays@[k]
            },
    )
}

impl Device {
    /// How many outputs the Dolby group has.
    pub fn dolby_zones(&self) -> (n: u8)
        ensures
            n as int == dolby_zone_count(*self),
    {
        match self.dolby_settings {
            Some(s) => if s.mode == 1 {
                3
            } else if s.mode == 2 {
                4
            } else {
                0
            },
            None => 0,
        }
    }

    /// Whether `b` is a zone of the Dolby group.
    pub fn is_dolby_zone(&self, b: &Bay) -> (r: bool)
        ensures
            r == in_dolby_group(*self, *b),
    {
        b.features & MXR_BAY_AUDIO_AMP_OUT != 0 && b.has_dolby() && b.bay_num < self.dolby_zones()
    }

    /// Applies a volume reported against bay `j`.
    pub fn apply_bay_volume_at(&mut self, j: usize, v: VolumeMuteStatus)
        requires
            j < old(self).bays@.len(),
        ensures
            final(self).bays@ == bays_after_volume(*old(self), j as int, v),
            *final(self) == (Device { bays: final(self).bays, ..*old(self) }),
    {
        let ghost before = *self;
        let leads = self.is_dolby_zone(&self.bays[j]) && self.bays[j].bay_num == 0;
        let n = self.bays.len();
        let mut k: usize = 0;
        while k < n
            invariant
                n == before.bays@.len(),
                n == self.bays@.len(),
                j < n,
                k <= n,
                leads == leads_dolby_group(before, before.bays@[j as int]),
                *self == (Device { bays: self.bays, ..before }),
                forall|m: int| 0 <= m < k ==> self.bays@[m] == bays_after_volume(before, j as int, v)[m],
                forall|m: int| k <= m < n ==> self.bays@[m] == before.bays@[m],
            decreases n - k,
        {
            if k == j || (leads && self.is_dolby_zone(&self.bays[k])) {
                self.bays[k].audio_volume = Some(v);
            }
            k = k + 1;
        }
        assert(self.bays@ =~= bays_after_volume(before, j as int, v));
    }
}

/// An amplifier out of Dolby mode groups nothing: a volume reported against
/// one of its bays reaches that bay alone.
pub proof fn lemma_no_group_out_of_dolby_mode(d: Device, j: int, v: VolumeMuteStatus, k: int)
    requires
        0 <= j < d.bays@.len(),
        0 <= k < d.bays@.len(),
        k != j,
        dolby_zone_count(d) == 0,
    ensures
        bays_after_volume(d, j, v)[k] == d.bays@[k],
        bays_after_volume(d, j, v)[j].audio_volume == Some(v),
{
}

/// Only the group's first zone stands for the group: a volume reported
/// against any other bay reaches that bay alone.
pub proof fn lemma_only_the_first_zone_spreads(d: Device, j: int, v: VolumeMuteStatus, k: int)
    requires
        0 <= j < d.bays@.len(),
        0 <= k < d.bays@.len(),
        k != j,
        d.bays@[j].bay_num != 0,
    ensures
        bays_after_volume(d, j, v)[k] == d.bays@[k],
{
}

/// A volume reported against the group's first zone reaches every zone of the
/// group, and no bay outside it.
pub proof fn lemma_first_zone_reaches_the_group(d: Device, j: int, v: VolumeMuteStatus, k: int)
    requires
        0 <= j < d.bays@.len(),
        0 <= k < d.bays@.len(),
        leads_dolby_group(d, d.bays@[j]),
    ensures
        in_dolby_group(d, d.bays@[k]) ==> bays_after_volume(d, j, v)[k].audio_volume == Some(v),
        !in_dolby_group(d, d.bays@[k]) && k != j ==> bays_after_volume(d, j, v)[k] == d.bays@[k],
{
}

/// The bay a link record points at: on the device with the record's serial,
/// the bay with the record's name.
pub open spec fn spec_link_target(devices: Seq<Device>, link: BayLink) -> Option<BayUid> {
    if exists|k: int| 0 <= k < devices.len() && devices[k].serial@ == link.serial@ {
        let k = choose|k: int|
            0 <= k < devices.len() && devices[k].serial@ == link.serial@ && forall|m: int|
                0 <= m < k ==> devices[m].serial@ != link.serial@;
        let bays = devices[k].bays@;
        if exists|n: int| 0 <= n < bays.len() && bays[n].port_name@ == link.bay_name@ {
            let n = choose|n: int|
                0 <= n < bays.len() && bays[n].port_name@ == link.bay_name@ && forall|m: int|
                    0 <= m < n ==> bays[m].port_name@ != link.bay_name@;
            Some(BayUid { device: devices[k].uid, port: bays[n].port })
        } else {
            None
        }
    } else {
        None
    }
}

/// The bay `uid` is linked to, once that bay has been discovered.
pub open spec fn spec_linked_bay(devices: Seq<Device>, uid: BayUid) -> Option<BayUid> {
    if has_device(devices, uid.device) && has_bay(
        devices[first_device(devices, uid.device)].bays@,
        uid.port,
    ) {
        let d = devices[first_device(devices, uid.device)];
        match d.bays@[first_bay(d.bays@, uid.port)].link {
            Some(link) => spec_link_target(devices, link),
            None => None,
        }
    } else {
        None
    }
}

/// The bay whose volume stands for `uid`'s: its own, unless it has no volume
/// control and is linked to a bay that has been discovered.
pub open spec fn spec_volume_bay(devices: Seq<Device>, uid: BayUid) -> BayUid {
    if has_device(devices, uid.device) && has_bay(
        devices[first_device(devices, uid.device)].bays@,
        uid.port,
    ) {
        let d = devices[first_device(devices, uid.device)];
        let b = d.bays@[first_bay(d.bays@, uid.port)];
        if !spec_has_volume_control(b) && spec_linked_bay(devices, uid) is Some {
            spec_linked_bay(devices, uid)->0
        } else {
            uid
        }
    } else {
        uid
    }
}

/// A bay with a volume control of its own keeps its own volume, whatever it
/// is linked to.
pub proof fn lemma_own_volume_control_is_not_redirected(devices: Seq<Device>, uid: BayUid)
    requires
        has_device(devices, uid.device),
        has_bay(devices[first_device(devices, uid.device)].bays@, uid.port),
        spec_has_volume_control(
            devices[first_device(devices, uid.device)].bays@[first_bay(
                devices[first_device(devices, uid.device)].bays@,
                uid.port,
            )],
        ),
    ensures
        spec_volume_bay(devices, uid) == uid,
{
}

impl State {
    /// Where the device is, having shown that the index is the one the specs
    /// choose.
    pub fn locate_device(&self, uid: DeviceUid) -> (r: Option<usize>)
        ensures
            match r {
                Some(i) => is_first_device(self.devices@, uid, i as int) && i as int
                    == first_device(self.devices@, uid) && has_device(self.devices@, uid),
                None => !has_device(self.devices@, uid),
            },
    {
        let r = self.device_index(uid);
        if let Some(i) = r {
            proof {
                let c = first_device(self.devices@, uid);
                assert(is_first_device(self.devices@, uid, c));
                lemma_first_device_unique(self.devices@, uid, i as int, c);
            }
        }
        r
    }

    /// Where the bay is, with both indices the ones the specs choose.
    pub fn locate_bay(&self, uid: BayUid) -> (r: Option<(usize, usize)>)
        ensures
            match r {
                Some((i, j)) => has_device(self.devices@, uid.device) && i as int == first_device(
                    self.devices@,
                    uid.device,
                ) && is_first_device(self.devices@, uid.device, i as int) && has_bay(
                    self.devices@[i as int].bays@,
                    uid.port,
                ) && j as int == first_bay(self.devices@[i as int].bays@, uid.port)
                    && is_first_bay(self.devices@[i as int].bays@, uid.port, j as int),
                None => !(has_device(self.devices@, uid.device) && has_bay(
                    self.devices@[first_device(self.devices@, uid.device)].bays@,
                    uid.port,
                )),
            },
    {
        match self.locate_device(uid.device) {
            None => None,
            Some(i) => match self.devices[i].bay_index(uid.port) {
                None => None,
                Some(j) => {
                    proof {
                        let bays = self.devices@[i as int].bays@;
                        let c = first_bay(bays, uid.port);
                        assert(is_first_bay(bays, uid.port, c));
                        lemma_first_bay_unique(bays, uid.port, j as int, c);
                    }
                    Some((i, j))
                },
            },
        }
    }

    /// The bay a link record points at.
    pub fn link_target(&self, link: &BayLink) -> (r: Option<BayUid>)
        ensures
            r == spec_link_target(self.devices@, *link),
    {
        match self.device_index_by_serial(link.serial.as_str()) {
            None => None,
            Some(k) => {
                let d = &self.devices[k];
                match d.bay_index_by_name(link.bay_name.as_str()) {
                    None => {
                        proof {
                            let devices = self.devices@;
                            let c = choose|c: int|
                                0 <= c < devices.len() && devices[c].serial@ == link.serial@
                                    && forall|m: int|
                                    0 <= m < c ==> devices[m].serial@ != link.serial@;
                            assert(0 <= k < devices.len() && devices[k as int].serial@
                                == link.serial@);
                            assert(c == k);
                        }
                        None
                    },
                    Some(n) => {
                        proof {
                            let devices = self.devices@;
                            let c = choose|c: int|
                                0 <= c < devices.len() && devices[c].serial@ == link.serial@
                                    && forall|m: int|
                                    0 <= m < c ==> devices[m].serial@ != link.serial@;
                            assert(c == k);
                            let bays = devices[k as int].bays@;
                            let cn = choose|cn: int|
                                0 <= cn < bays.len() && bays[cn].port_name@ == link.bay_name@
                                    && forall|m: int|
                                    0 <= m < cn ==> bays[m].port_name@ != link.bay_name@;
                            assert(0 <= n < bays.len() && bays[n as int].port_name@
                                == link.bay_name@);
                            assert(cn == n);
                        }
                        Some(BayUid { device: d.uid, port: d.bays[n].port })
                    },
                }
            },
        }
    }

    /// The bay on another device that `uid` is linked to, once that bay has
    /// been discovered.
    pub fn linked_bay(&self, uid: BayUid) -> (r: Option<BayUid>)
        ensures
            r == spec_linked_bay(self.devices@, uid),
    {
        match self.locate_bay(uid) {
            None => None,
            Some((i, j)) => match &self.devices[i].bays[j].link {
                Some(link) => self.link_target(link),
                None => None,
            },
        }
    }

    /// The bay whose volume stands for `uid`'s.
    pub fn volume_bay(&self, uid: BayUid) -> (r: BayUid)
        ensures
            r == spec_volume_bay(self.devices@, uid),
    {
        match self.locate_bay(uid) {
            None => uid,
            Some((i, j)) => {
                if !self.devices[i].bays[j].has_volume_control() {
                    match self.linked_bay(uid) {
                        Some(l) => l,
                        None => uid,
                    }
                } else {
                    uid
                }
            },
        }
    }

    /// Applies a volume reported against `bay`, spreading it over a Dolby
    /// group when the bay leads one. A bay never heard of changes nothing.
    pub fn apply_volume(&mut self, bay: BayUid, v: VolumeMuteStatus)
        ensures
            final(self).frames_received == old(self).frames_received,
            final(self).devices@.len() == old(self).devices@.len(),
            match old(self).locate_bay_spec(bay) {
                Some((i, j)) => final(self).devices@ == old(self).devices@.update(
                    i,
                    Device { bays: final(self).devices@[i].bays, ..old(self).devices@[i] },
                ) && final(self).devices@[i].bays@ == bays_after_volume(
                    old(self).devices@[i],
                    j,
                    v,
                ),
                None => final(self).devices@ == old(self).devices@,
            },
    {
        match self.locate_bay(bay) {
            None => {},
            Some((i, j)) => {
                let ghost before = self.devices@;
                self.devices[i].apply_bay_volume_at(j, v);
                assert(self.devices@ =~= before.update(
                    i as int,
                    Device { bays: self.devices@[i as int].bays, ..before[i as int] },
                ));
            },
        }
    }

    /// Where bay `uid` is, as the specs choose it.
    pub open spec fn locate_bay_spec(&self, uid: BayUid) -> Option<(int, int)> {
        if has_device(self.devices@, uid.device) && has_bay(
            self.devices@[first_device(self.devices@, uid.device)].bays@,
            uid.port,
        ) {
            let i = first_device(self.devices@, uid.device);
            Some((i, first_bay(self.devices@[i].bays@, uid.port)))
        } else {
            None
        }
    }
}

/// What a command does to this client's copy of the registry once its frame
/// is away. A device does not acknowledge a command, so without this a caller
/// that read back what it just wrote would see the old value.
#[derive(Clone, Debug)]
pub enum WriteBack {
    /// The bay was renamed.
    UserName { bay: BayUid, name: String },
    /// The bay was hidden or shown.
    Hidden { bay: BayUid, hidden: bool },
    /// The bay's EDID profile was switched.
    EdidProfile { bay: BayUid, profile: EdidProfile },
    /// What is attached to the bay was powered on or off.
    Power { bay: BayUid, power: PowerStatus },
    /// The bay's volume was set.
    Volume { bay: BayUid, volume: VolumeMuteStatus },
    /// The amplifier zone's settings were applied.
    AmpSettings { bay: BayUid, settings: AmpZoneSettings },
    /// The device was told to reboot.
    Rebooting { device: DeviceUid },
}

/// A bay after a write-back that changes one of its fields.
pub open spec fn written_bay(b: Bay, w: WriteBack) -> Bay {
    match w {
        WriteBack::UserName { name, .. } => Bay { user_name: Some(name), ..b },
        WriteBack::Hidden { hidden, .. } => Bay { hidden: Some(hidden), ..b },
        WriteBack::EdidProfile { profile, .. } => Bay { edid_profile: Some(profile), ..b },
        WriteBack::Power { power, .. } => Bay { power_status: Some(power), ..b },
        WriteBack::AmpSettings { settings, .. } => Bay { amp_settings: Some(settings), ..b },
        _ => b,
    }
}

/// The bay a write-back that changes one bay's field addresses.
pub open spec fn written_bay_uid(w: WriteBack) -> Option<BayUid> {
    match w {
        WriteBack::UserName { bay, .. } => Some(bay),
        WriteBack::Hidden { bay, .. } => Some(bay),
        WriteBack::EdidProfile { bay, .. } => Some(bay),
        WriteBack::Power { bay, .. } => Some(bay),
        WriteBack::AmpSettings { bay, .. } => Some(bay),
        _ => None,
    }
}

/// What a write-back leaves: the counters alone, and the devices changed
/// only where the write-back says.
pub open spec fn written_back(before: State, after: State, w: WriteBack) -> bool {
    &&& after.frames_received == before.frames_received
    &&& match w {
        WriteBack::Volume { bay, volume } => match before.locate_bay_spec(bay) {
            Some((i, j)) => after.devices@ == before.devices@.update(
                i,
                Device { bays: after.devices@[i].bays, ..before.devices@[i] },
            ) && after.devices@[i].bays@ == bays_after_volume(
                before.devices@[i],
                j,
                volume,
            ),
            None => after.devices@ == before.devices@,
        },
        WriteBack::Rebooting { device } => if has_device(before.devices@, device) {
            let i = first_device(before.devices@, device);
            after.devices@ == before.devices@.update(
                i,
                Device { rebooting: true, ..before.devices@[i] },
            )
        } else {
            after.devices@ == before.devices@
        },
        _ => match before.locate_bay_spec(written_bay_uid(w)->0) {
            Some((i, j)) => after.devices@ == before.devices@.update(
                i,
                Device { bays: after.devices@[i].bays, ..before.devices@[i] },
            ) && after.devices@[i].bays@ == before.devices@[i].bays@.update(
                j,
                written_bay(before.devices@[i].bays@[j], w),
            ),
            None => after.devices@ == before.devices@,
        },
    }
}

impl State {
    /// Sets one field of bay `j` of device `i`, as `w` says.
    fn write_bay_field(&mut self, i: usize, j: usize, w: WriteBack)
        requires
            i < old(self).devices@.len(),
            j < old(self).devices@[i as int].bays@.len(),
            written_bay_uid(w) is Some,
        ensures
            final(self).frames_received == old(self).frames_received,
            final(self).devices@ == old(self).devices@.update(
                i as int,
                Device {
                    bays: final(self).devices@[i as int].bays,
                    ..old(self).devices@[i as int]
                },
            ),
            final(self).devices@[i as int].bays@ == old(self).devices@[i as int].bays@.update(
                j as int,
                written_bay(old(self).devices@[i as int].bays@[j as int], w),
            ),
    {
        let ghost before = self.devices@;
        match w {
            WriteBack::UserName { name, .. } => {
                self.devices[i].bays[j].user_name = Some(name);
            },
            WriteBack::Hidden { hidden, .. } => {
                self.devices[i].bays[j].hidden = Some(hidden);
            },
            WriteBack::EdidProfile { profile, .. } => {
                self.devices[i].bays[j].edid_profile = Some(profile);
            },
            WriteBack::Power { power, .. } => {
                self.devices[i].bays[j].power_status = Some(power);
            },
            WriteBack::AmpSettings { settings, .. } => {
                self.devices[i].bays[j].amp_settings = Some(settings);
            },
            _ => {},
        }
        assert(self.devices@[i as int].bays@ =~= before[i as int].bays@.update(
            j as int,
            written_bay(before[i as int].bays@[j as int], w),
        ));
        assert(self.devices@ =~= before.update(
            i as int,
            Device { bays: self.devices@[i as int].bays, ..before[i as int] },
        ));
    }

    /// Applies what a command that got away will have done.
    pub fn write_back(&mut self, w: WriteBack)
        ensures
            written_back(*old(self), *final(self), w),
    {
        match w {
            WriteBack::Volume { bay, volume } => {
                self.apply_volume(bay, volume);
            },
            WriteBack::Rebooting { device } => {
                match self.locate_device(device) {
                    Some(i) => {
                        let ghost before = self.devices@;
                        self.devices[i].rebooting = true;
                        assert(self.devices@ =~= before.update(
                            i as int,
                            Device { rebooting: true, ..before[i as int] },
                        ));
                    },
                    None => {},
                }
            },
            WriteBack::UserName { bay, .. } | WriteBack::Hidden { bay, .. }
            | WriteBack::EdidProfile { bay, .. } | WriteBack::Power { bay, .. }
            | WriteBack::AmpSettings { bay, .. } => {
                match self.locate_bay(bay) {
                    Some((i, j)) => self.write_bay_field(i, j, w),
                    None => {},
                }
            },
        }
    }
}

/// A device matching `uid` has a first match.
proof fn lemma_first_device_exists(devices: Seq<Device>, uid: DeviceUid, k: int)
    requires
        0 <= k < devices.len(),
        devices[k].uid.bytes@ == uid.bytes@,
    ensures
        is_first_device(devices, uid, first_device(devices, uid)),
    decreases k,
{
    if exists|j: int| 0 <= j < k && devices[j].uid.bytes@ == uid.bytes@ {
        let j = choose|j: int| 0 <= j < k && devices[j].uid.bytes@ == uid.bytes@;
        lemma_first_device_exists(devices, uid, j);
    } else {
        assert(is_first_device(devices, uid, k));
    }
}

/// A bay on `port` has a first match.
proof fn lemma_first_bay_exists(bays: Seq<Bay>, port: u16, k: int)
    requires
        0 <= k < bays.len(),
        bays[k].port == port,
    ensures
        is_first_bay(bays, port, first_bay(bays, port)),
    decreases k,
{
    if exists|j: int| 0 <= j < k && bays[j].port == port {
        let j = choose|j: int| 0 <= j < k && bays[j].port == port;
        lemma_first_bay_exists(bays, port, j);
    } else {
        assert(is_first_bay(bays, port, k));
    }
}

/// Whether two registries hold devices and bays under the same identifiers
/// and ports, in the same places.
pub open spec fn same_layout(a: Seq<Device>, b: Seq<Device>) -> bool {
    &&& a.len() == b.len()
    &&& forall|i: int|
        0 <= i < a.len() ==> {
            &&& #[trigger] a[i].uid == b[i].uid
            &&& a[i].bays@.len() == b[i].bays@.len()
            &&& forall|j: int| 0 <= j < a[i].bays@.len() ==> #[trigger] a[i].bays@[j].port == b[i].bays@[j].port
        }
}

/// Two registries with the same layout find every bay in the same place.
proof fn lemma_same_layout_locates_alike(a: State, b: State, uid: BayUid)
    requires
        same_layout(a.devices@, b.devices@),
    ensures
        a.locate_bay_spec(uid) == b.locate_bay_spec(uid),
{
    let (da, db) = (a.devices@, b.devices@);
    assert forall|i: int| 0 <= i < da.len() implies (da[i].uid.bytes@ == uid.device.bytes@
        <==> db[i].uid.bytes@ == uid.device.bytes@) by {
        assert(da[i].uid == db[i].uid);
    }
    if has_device(da, uid.device) {
        let k = choose|k: int| 0 <= k < da.len() && da[k].uid.bytes@ == uid.device.bytes@;
        lemma_first_device_exists(da, uid.device, k);
        lemma_first_device_exists(db, uid.device, k);
        let ia = first_device(da, uid.device);
        let ib = first_device(db, uid.device);
        assert(is_first_device(db, uid.device, ia));
        lemma_first_device_unique(db, uid.device, ia, ib);
        let (ba, bb) = (da[ia].bays@, db[ia].bays@);
        assert(da[ia].uid == db[ia].uid);
        if has_bay(ba, uid.port) {
            let m = choose|m: int| 0 <= m < ba.len() && ba[m].port == uid.port;
            assert(ba[m].port == bb[m].port);
            lemma_first_bay_exists(ba, uid.port, m);
            lemma_first_bay_exists(bb, uid.port, m);
            let ja = first_bay(ba, uid.port);
            let jb = first_bay(bb, uid.port);
            assert(ba[ja].port == bb[ja].port);
            assert forall|q: int| 0 <= q < ja implies bb[q].port != uid.port by {
                assert(ba[q].port == bb[q].port);
            }
            assert(is_first_bay(bb, uid.port, ja));
            lemma_first_bay_unique(bb, uid.port, ja, jb);
        } else {
            assert forall|m: int| 0 <= m < bb.len() implies bb[m].port != uid.port by {
                assert(ba[m].port == bb[m].port);
            }
        }
    } else {
        assert(!has_device(db, uid.device));
    }
}

/// Where a located bay is, it really is: a device with its identifier, and a
/// bay on its port there.
proof fn lemma_located(s: State, uid: BayUid)
    requires
        s.locate_bay_spec(uid) is Some,
    ensures
        ({
            let (i, j) = s.locate_bay_spec(uid)->0;
            &&& is_first_device(s.devices@, uid.device, i)
            &&& is_first_bay(s.devices@[i].bays@, uid.port, j)
        }),
{
    let d = s.devices@;
    let k = choose|k: int| 0 <= k < d.len() && d[k].uid.bytes@ == uid.device.bytes@;
    lemma_first_device_exists(d, uid.device, k);
    let i = first_device(d, uid.device);
    let b = d[i].bays@;
    let m = choose|m: int| 0 <= m < b.len() && b[m].port == uid.port;
    lemma_first_bay_exists(b, uid.port, m);
}

/// What a command writes back is what the registry then reads: once a rename,
/// hide, profile switch, power change or amplifier setting is away, the bay it
/// addressed is found where it was, with that field written and the rest as
/// they were; a volume reaches the bay it was set on.
pub proof fn lemma_write_back_is_read_back(before: State, after: State, w: WriteBack)
    requires
        written_back(before, after, w),
        !(w is Rebooting),
    ensures
        ({
            let b = match w {
                WriteBack::Volume { bay, .. } => bay,
                _ => written_bay_uid(w)->0,
            };
            &&& after.locate_bay_spec(b) == before.locate_bay_spec(b)
            &&& match before.locate_bay_spec(b) {
                Some((i, j)) => match w {
                    WriteBack::Volume { volume, .. } => after.devices@[i].bays@[j].audio_volume
                        == Some(volume),
                    _ => after.devices@[i].bays@[j] == written_bay(before.devices@[i].bays@[j], w),
                },
                None => after.devices@ == before.devices@,
            }
        }),
{
    match w {
        WriteBack::Volume { bay, volume } => {
            if let Some((i, j)) = before.locate_bay_spec(bay) {
                lemma_located(before, bay);
                let (bd, ad) = (before.devices@, after.devices@);
                assert(ad[i].bays@ == bays_after_volume(bd[i], j, volume));
                assert(ad == bd.update(i, Device { bays: ad[i].bays, ..bd[i] }));
                assert forall|k: int| 0 <= k < bd.len() implies {
                    &&& #[trigger] bd[k].uid == ad[k].uid
                    &&& bd[k].bays@.len() == ad[k].bays@.len()
                    &&& forall|q: int|
                        0 <= q < bd[k].bays@.len() ==> #[trigger] bd[k].bays@[q].port
                            == ad[k].bays@[q].port
                } by {
                    if k == i {
                        assert(ad[k] == Device { bays: ad[i].bays, ..bd[i] });
                        assert forall|q: int| 0 <= q < bd[k].bays@.len() implies #[trigger] bd[k].bays@[q].port
                            == ad[k].bays@[q].port by {
                            assert(ad[k].bays@[q] == bays_after_volume(bd[k], j, volume)[q]);
                        }
                    } else {
                        assert(ad[k] == bd[k]);
                    }
                }
                lemma_same_layout_locates_alike(before, after, bay);
            }
        },
        WriteBack::Rebooting { .. } => {},
        _ => {
            let bay = written_bay_uid(w)->0;
            if let Some((i, j)) = before.locate_bay_spec(bay) {
                lemma_located(before, bay);
                let (bd, ad) = (before.devices@, after.devices@);
                assert(ad[i].bays@ == bd[i].bays@.update(j, written_bay(bd[i].bays@[j], w)));
                assert(written_bay(bd[i].bays@[j], w).port == bd[i].bays@[j].port);
                assert(ad == bd.update(i, Device { bays: ad[i].bays, ..bd[i] }));
                assert forall|k: int| 0 <= k < bd.len() implies {
                    &&& #[trigger] bd[k].uid == ad[k].uid
                    &&& bd[k].bays@.len() == ad[k].bays@.len()
                    &&& forall|q: int|
                        0 <= q < bd[k].bays@.len() ==> #[trigger] bd[k].bays@[q].port
                            == ad[k].bays@[q].port
                } by {
                    if k == i {
                        assert(ad[k] == Device { bays: ad[i].bays, ..bd[i] });
                        assert forall|q: int| 0 <= q < bd[k].bays@.len() implies #[trigger] bd[k].bays@[q].port
                            == ad[k].bays@[q].port by {
                            if q == j {
                                assert(ad[k].bays@[q] == written_bay(bd[i].bays@[j], w));
                            } else {
                                assert(ad[k].bays@[q] == bd[k].bays@[q]);
                            }
                        }
                    } else {
                        assert(ad[k] == bd[k]);
                    }
                }
                lemma_same_layout_locates_alike(before, after, bay);
            }
        },
    }
}

/// Whether each device's bays are in strictly increasing port order, so no
/// port is reported twice.
pub open spec fn bays_in_port_order(bays: Seq<Bay>) -> bool {
    forall|j: int, k: int| 0 <= j < k < bays.len() ==> #[trigger] bays[j].port < #[trigger] bays[k].port
}

impl State {
    /// Whether the registry holds each key once: no identifier for two
    /// devices, and each device's bays in port order.
    pub open spec fn well_formed(&self) -> bool {
        &&& forall|i: int, k: int|
            0 <= i < k < self.devices@.len() ==> #[trigger] self.devices@[i].uid.bytes@
                != #[trigger] self.devices@[k].uid.bytes@
        &&& forall|i: int|
            0 <= i < self.devices@.len() ==> bays_in_port_order(#[trigger] self.devices@[i].bays@)
    }
}

/// Two layouts alike are both well formed or neither.
proof fn lemma_same_layout_keeps_well_formed(a: State, b: State)
    requires
        a.well_formed(),
        same_layout(a.devices@, b.devices@),
    ensures
        b.well_formed(),
{
    let (da, db) = (a.devices@, b.devices@);
    assert forall|i: int, k: int| 0 <= i < k < db.len() implies #[trigger] db[i].uid.bytes@
        != #[trigger] db[k].uid.bytes@ by {
        assert(da[i].uid == db[i].uid);
        assert(da[k].uid == db[k].uid);
        assert(da[i].uid.bytes@ != da[k].uid.bytes@);
    }
    assert forall|i: int| 0 <= i < db.len() implies bays_in_port_order(#[trigger] db[i].bays@) by {
        assert(bays_in_port_order(da[i].bays@));
        assert(da[i].uid == db[i].uid);
        assert forall|j: int, k: int| 0 <= j < k < db[i].bays@.len() implies #[trigger] db[i].bays@[j].port
            < #[trigger] db[i].bays@[k].port by {
            assert(da[i].uid == db[i].uid);
            assert(da[i].bays@[j].port == db[i].bays@[j].port);
            assert(da[i].bays@[k].port == db[i].bays@[k].port);
            assert(da[i].bays@[j].port < da[i].bays@[k].port);
        }
    }
}

/// A write-back changes no identifier and no port.
proof fn lemma_write_back_keeps_layout(before: State, after: State, w: WriteBack)
    requires
        written_back(before, after, w),
    ensures
        same_layout(before.devices@, after.devices@),
{
    let (bd, ad) = (before.devices@, after.devices@);
    match w {
        WriteBack::Volume { bay, volume } => {
            if let Some((i, j)) = before.locate_bay_spec(bay) {
                lemma_located(before, bay);
                assert(ad == bd.update(i, Device { bays: ad[i].bays, ..bd[i] }));
                assert forall|k: int| 0 <= k < bd.len() implies {
                    &&& #[trigger] bd[k].uid == ad[k].uid
                    &&& bd[k].bays@.len() == ad[k].bays@.len()
                    &&& forall|q: int|
                        0 <= q < bd[k].bays@.len() ==> #[trigger] bd[k].bays@[q].port
                            == ad[k].bays@[q].port
                } by {
                    if k == i {
                        assert(ad[k] == Device { bays: ad[i].bays, ..bd[i] });
                        assert forall|q: int| 0 <= q < bd[k].bays@.len() implies #[trigger] bd[k].bays@[q].port
                            == ad[k].bays@[q].port by {
                            assert(ad[k].bays@[q] == bays_after_volume(bd[k], j, volume)[q]);
                        }
                    } else {
                        assert(ad[k] == bd[k]);
                    }
                }
            } else {
                assert(ad == bd);
            }
        },
        WriteBack::Rebooting { device } => {
            if has_device(bd, device) {
                let c = choose|c: int| 0 <= c < bd.len() && bd[c].uid.bytes@ == device.bytes@;
                lemma_first_device_exists(bd, device, c);
                let i = first_device(bd, device);
                assert(ad == bd.update(i, Device { rebooting: true, ..bd[i] }));
                assert forall|k: int| 0 <= k < bd.len() implies {
                    &&& #[trigger] bd[k].uid == ad[k].uid
                    &&& bd[k].bays@.len() == ad[k].bays@.len()
                    &&& forall|q: int|
                        0 <= q < bd[k].bays@.len() ==> #[trigger] bd[k].bays@[q].port
                            == ad[k].bays@[q].port
                } by {
                    if k == i {
                        assert(ad[k] == Device { rebooting: true, ..bd[i] });
                    } else {
                        assert(ad[k] == bd[k]);
                    }
                }
            } else {
                assert(ad == bd);
            }
        },
        _ => {
            let bay = written_bay_uid(w)->0;
            if let Some((i, j)) = before.locate_bay_spec(bay) {
                lemma_located(before, bay);
                assert(ad[i].bays@ == bd[i].bays@.update(j, written_bay(bd[i].bays@[j], w)));
                assert(written_bay(bd[i].bays@[j], w).port == bd[i].bays@[j].port);
                assert(ad == bd.update(i, Device { bays: ad[i].bays, ..bd[i] }));
                assert forall|k: int| 0 <= k < bd.len() implies {
                    &&& #[trigger] bd[k].uid == ad[k].uid
                    &&& bd[k].bays@.len() == ad[k].bays@.len()
                    &&& forall|q: int|
                        0 <= q < bd[k].bays@.len() ==> #[trigger] bd[k].bays@[q].port
                            == ad[k].bays@[q].port
                } by {
                    if k == i {
                        assert(ad[k] == Device { bays: ad[i].bays, ..bd[i] });
                        assert forall|q: int| 0 <= q < bd[k].bays@.len() implies #[trigger] bd[k].bays@[q].port
                            == ad[k].bays@[q].port by {
                            if q == j {
                                assert(ad[k].bays@[q] == written_bay(bd[i].bays@[j], w));
                            } else {
                                assert(ad[k].bays@[q] == bd[k].bays@[q]);
                            }
                        }
                    } else {
                        assert(ad[k] == bd[k]);
                    }
                }
            } else {
                assert(ad == bd);
            }
        },
    }
}

/// What a command writes back keeps the registry well formed: no write-back
/// adds an identifier or a port, or moves one.
pub proof fn lemma_write_back_keeps_well_formed(before: State, after: State, w: WriteBack)
    requires
        before.well_formed(),
        written_back(before, after, w),
    ensures
        after.well_formed(),
{
    lemma_write_back_keeps_layout(before, after, w);
    lemma_same_layout_keeps_well_formed(before, after);
}

/// In a well-formed registry a device is found where it is: the first match
/// for its identifier is the only one.
pub proof fn lemma_well_formed_finds_the_device(s: State, uid: DeviceUid, i: int)
    requires
        s.well_formed(),
        0 <= i < s.devices@.len(),
        s.devices@[i].uid.bytes@ == uid.bytes@,
    ensures
        first_device(s.devices@, uid) == i,
{
    let d = s.devices@;
    lemma_first_device_exists(d, uid, i);
    let f = first_device(d, uid);
    if f < i {
        assert(d[f].uid.bytes@ != d[i].uid.bytes@);
    }
}

/// In a well-formed registry a bay is found where it is: the first bay on
/// its port is the only one.
pub proof fn lemma_well_formed_finds_the_bay(s: State, i: int, j: int)
    requires
        s.well_formed(),
        0 <= i < s.devices@.len(),
        0 <= j < s.devices@[i].bays@.len(),
    ensures
        first_bay(s.devices@[i].bays@, s.devices@[i].bays@[j].port) == j,
{
    let b = s.devices@[i].bays@;
    let port = b[j].port;
    assert(bays_in_port_order(b));
    lemma_first_bay_exists(b, port, j);
    let f = first_bay(b, port);
    if f < j {
        assert(b[f].port < b[j].port);
    }
}
/// Takes in a frame received from the network: a frame this client sent
/// itself, which the host loops back, is no news and leaves the registry as
/// it was; one from a peer is counted. Says whether the frame is a peer's.
pub fn accept_frame(state: &mut State, own: &DeviceUid, frame: &Frame) -> (taken: bool)
    ensures
        taken == (frame.sender.bytes@ != own.bytes@),
        !taken ==> *final(state) == *old(state),
        taken ==> final(state).devices == old(state).devices,
        old(state).well_formed() ==> final(state).well_formed(),
        taken ==> final(state).frames_received == (if old(state).frames_received == u64::MAX {
            u64::MAX as int
        } else {
            old(state).frames_received + 1
        }),
{
    if frame.sender.same(own) {
        return false;
    }
    state.frames_received = state.frames_received.saturating_add(1);
    true
}

} // verus!
