//! The values devices report and requests carry, as plain data.
//!
//! Every enumeration that crosses the wire is a newtype over its wire integer
//! rather than a closed set, so a value from firmware newer than this library
//! reaches the caller unchanged instead of being folded onto a neighbour.

use vstd::prelude::*;

use crate::ident::{BayUid, DeviceUid};
use crate::net::Ipv4;

verus! {

/// Number of EQ bands an amplifier zone carries.
pub const AMP_EQ_BANDS: usize = 5;

/// How many inputs a multiviewer has.
pub const MULTIVIEWER_INPUTS: usize = 4;

/// A bay's EDID profile, by its wire value.
#[derive(Clone, Copy, Debug, PartialEq, Eq, Structural)]
pub struct EdidProfile(pub u16);

/// The kind of remote control on a bay, by its wire value.
#[derive(Clone, Copy, Debug, PartialEq, Eq, Structural)]
pub struct RcType(pub u8);

/// A remote-control key, by its wire value.
#[derive(Clone, Copy, Debug, PartialEq, Eq, Structural)]
pub struct RcKey(pub u16);

/// A remote-control action, by its wire value.
#[derive(Clone, Copy, Debug, PartialEq, Eq, Structural)]
pub struct RcAction(pub u16);

/// A V2IP decoder's health: 0 unknown, 1 healthy, 2 bad, 3 starting.
#[derive(Clone, Copy, Debug, PartialEq, Eq, Structural)]
pub struct DecoderState(pub u8);

/// A multiviewer setting byte: a view mode, a source, an output mode and so
/// on, by its wire value.
#[derive(Clone, Copy, Debug, PartialEq, Eq, Structural)]
pub struct MultiviewerByte(pub u8);

/// A signal format packed into one 16-bit word, by its wire value.
#[derive(Clone, Copy, Debug, PartialEq, Eq, Structural)]
pub struct MxrSignalType(pub u16);

/// The CEC power state of whatever is connected to a bay.
#[derive(Clone, Copy, Debug, PartialEq, Eq, Structural)]
pub enum PowerStatus {
    On,
    Off,
    Unknown,
}

/// The audio return channel a bay is carrying.
#[derive(Clone, Copy, Debug, PartialEq, Eq, Structural)]
pub enum ArcStatus {
    Inactive,
    Hdmi,
    Optical,
    Analog,
}

/// The high-level state of a device on the network.
#[derive(Clone, Copy, Debug, PartialEq, Eq, Structural)]
pub enum DeviceStatus {
    Online,
    Offline,
    Rebooting,
    Booting,
    Inactive,
}

/// Which of a V2IP device's streams an address describes.
#[derive(Clone, Copy, Debug, PartialEq, Eq, Structural)]
pub enum StreamKind {
    Video,
    Audio,
    Anc,
    Arc,
}

/// Volume and mute, per channel, each as reported or not.
#[derive(Clone, Copy, Debug, PartialEq, Eq, Structural)]
pub struct VolumeMuteStatus {
    pub volume_left: Option<u8>,
    pub volume_right: Option<u8>,
    pub muted_left: Option<bool>,
    pub muted_right: Option<bool>,
}

/// The combined volume of a reading: the louder of the channels reported, and
/// zero when neither was.
pub open spec fn combined_volume(v: VolumeMuteStatus) -> u8 {
    let l: u8 = match v.volume_left {
        Some(x) => x,
        None => 0,
    };
    let r: u8 = match v.volume_right {
        Some(x) => x,
        None => 0,
    };
    if l >= r {
        l
    } else {
        r
    }
}

/// Whether a reading is muted: unknown when neither channel said, and muted
/// when either channel is.
pub open spec fn combined_muted(v: VolumeMuteStatus) -> Option<bool> {
    if v.muted_left is None && v.muted_right is None {
        None
    } else {
        Some(v.muted_left == Some(true) || v.muted_right == Some(true))
    }
}

impl VolumeMuteStatus {
    /// Both channels set to `volume`, and both muted as `muted` says.
    pub fn both(volume: u8, muted: Option<bool>) -> (v: VolumeMuteStatus)
        ensures
            v.volume_left == Some(volume),
            v.volume_right == Some(volume),
            v.muted_left == muted,
            v.muted_right == muted,
    {
        VolumeMuteStatus {
            volume_left: Some(volume),
            volume_right: Some(volume),
            muted_left: muted,
            muted_right: muted,
        }
    }

    /// The combined volume percentage.
    pub fn volume(&self) -> (v: u8)
        ensures
            v == combined_volume(*self),
    {
        let l = match self.volume_left {
            Some(x) => x,
            None => 0,
        };
        let r = match self.volume_right {
            Some(x) => x,
            None => 0,
        };
        if l >= r {
            l
        } else {
            r
        }
    }

    /// Whether either channel is muted, unknown when neither has said.
    pub fn muted(&self) -> (m: Option<bool>)
        ensures
            m == combined_muted(*self),
    {
        if self.muted_left.is_none() && self.muted_right.is_none() {
            None
        } else {
            Some(self.muted_left == Some(true) || self.muted_right == Some(true))
        }
    }
}

/// A stream's sample rate and channel count.
#[derive(Clone, Copy, Debug, PartialEq, Eq, Structural)]
pub struct V2ipAudioFormat {
    /// Sample rate in Hz.
    pub sample_rate: u32,
    /// Channel count.
    pub channels: u8,
}

/// One multicast stream: group and port.
#[derive(Clone, Copy, Debug, PartialEq, Eq, Structural)]
pub struct StreamAddr {
    pub ip: Ipv4,
    pub port: u16,
}

/// The three streams a route names. An unset group, 0.0.0.0, tells the sink
/// to keep the stream it has.
#[derive(Clone, Copy, Debug, PartialEq, Eq, Structural)]
pub struct V2ipStreams {
    pub video: StreamAddr,
    pub audio: StreamAddr,
    pub anc: StreamAddr,
}

/// One advertised multicast stream.
#[derive(Clone, Copy, Debug, PartialEq, Eq, Structural)]
pub struct V2ipStreamSource {
    pub kind: StreamKind,
    pub ip: Ipv4,
    pub port: u16,
}

/// Whether an address is a multicast group: 224.0.0.0 to 239.255.255.255.
pub open spec fn is_multicast(ip: Ipv4) -> bool {
    224 <= ip.a <= 239
}

impl V2ipStreamSource {
    /// Whether this carries a usable address: a multicast group and a
    /// non-zero port, both.
    pub fn is_valid(&self) -> (b: bool)
        ensures
            b == (is_multicast(self.ip) && self.port != 0),
    {
        224 <= self.ip.a && self.ip.a <= 239 && self.port != 0
    }
}

/// The streams one V2IP source advertises.
#[derive(Clone, Copy, Debug, PartialEq, Eq)]
pub struct V2ipStreamSources {
    /// The originating device, zero when it is not known.
    pub uid: DeviceUid,
    pub video: V2ipStreamSource,
    pub audio: V2ipStreamSource,
    pub anc: V2ipStreamSource,
    pub arc: Option<V2ipStreamSource>,
}

/// A ProAmp8 zone's gain, delay, tone and power settings.
#[derive(Clone, Copy, Debug, PartialEq, Eq)]
pub struct AmpZoneSettings {
    pub gain_left: u8,
    pub gain_right: u8,
    pub volume_min: u8,
    pub volume_max: u8,
    pub delay_left: u32,
    pub delay_right: u32,
    pub bass: u8,
    pub treble: u8,
    pub bridged: u8,
    pub power_mode: u8,
    pub power_level: u8,
    pub power_timeout: u32,
    pub eq_left: [u8; 5],
    pub eq_right: [u8; 5],
}

impl Default for AmpZoneSettings {
    /// Every field zero.
    fn default() -> (s: AmpZoneSettings)
        ensures
            s.gain_left == 0 && s.gain_right == 0 && s.volume_min == 0 && s.volume_max == 0,
            s.delay_left == 0 && s.delay_right == 0 && s.power_timeout == 0,
            s.bass == 0 && s.treble == 0 && s.bridged == 0,
            s.power_mode == 0 && s.power_level == 0,
            forall|i: int| 0 <= i < 5 ==> s.eq_left[i] == 0u8 && s.eq_right[i] == 0u8,
    {
        AmpZoneSettings {
            gain_left: 0,
            gain_right: 0,
            volume_min: 0,
            volume_max: 0,
            delay_left: 0,
            delay_right: 0,
            bass: 0,
            treble: 0,
            bridged: 0,
            power_mode: 0,
            power_level: 0,
            power_timeout: 0,
            eq_left: [0u8; 5],
            eq_right: [0u8; 5],
        }
    }
}

/// A ProAmp8's Dolby settings.
#[derive(Clone, Copy, Debug, PartialEq, Eq, Structural)]
pub struct AmpDolbySettings {
    /// 0 = standard, 1 = 3-zone Dolby, 2 = 4-zone Dolby.
    pub mode: u8,
    pub pcm_upmix: bool,
    pub dolby_detected: bool,
    pub pcm_upmix_active: bool,
}

/// Transmitter stream statistics.
#[derive(Clone, Copy, Debug, PartialEq, Eq, Structural)]
pub struct V2ipTxStats {
    pub video: u32,
    pub audio: u32,
    pub anc: u32,
    pub stream_down: u32,
    pub overflow: u32,
}

/// Receiver stream statistics.
#[derive(Clone, Copy, Debug, PartialEq, Eq, Structural)]
pub struct V2ipRxStats {
    pub video_total: u32,
    pub video_dropped: u32,
    pub video_seq_errors: u32,
    pub wdt_timeout: u32,
    pub audio_total: u32,
    pub audio_dropped: u32,
    pub audio_seq_errors: u32,
    pub anc_total: u32,
    pub anc_dropped: u32,
    pub anc_seq_errors: u32,
    pub decoder_state: DecoderState,
}

/// A device's V2IP statistics, cumulative and over the last minute.
#[derive(Clone, Copy, Debug, PartialEq, Eq, Structural)]
pub struct V2ipDeviceStats {
    pub tx: V2ipTxStats,
    pub tx_per_minute: V2ipTxStats,
    pub rx: V2ipRxStats,
    pub rx_per_minute: V2ipRxStats,
}

/// The window a sink is currently told to show.
#[derive(Clone, Copy, Debug, PartialEq, Eq)]
pub struct V2ipTilingConfig {
    pub target: DeviceUid,
    pub pos_x: u16,
    pub pos_y: u16,
    pub width: u16,
    pub height: u16,
}

/// The diagnostic result for one UTP cable pair.
#[derive(Clone, Copy, Debug, PartialEq, Eq, Structural)]
pub struct UtpCableStatus {
    pub polarity: bool,
    pub pair: u8,
    pub skew: u32,
    pub length: u32,
}

/// One device in a topology report.
#[derive(Clone, Copy, Debug, PartialEq, Eq)]
pub struct TopologyEntry {
    pub uid: DeviceUid,
    /// Bitmask of the devices it is connected to.
    pub mask: u32,
}

/// The metadata shared by the raw-IR capture and transmit frames.
#[derive(Clone, Copy, Debug, PartialEq, Eq, Structural)]
pub struct IrMeta {
    pub timer_resolution: u16,
    pub frequency: u16,
    pub nb_timings: u16,
    pub repeat_offset: u16,
    pub status: u8,
}

/// Raw IR captured on a bay of the sending device.
#[derive(Clone, Debug, PartialEq, Eq)]
pub struct IrCapture {
    pub timestamp: u32,
    pub last_change: u32,
    pub meta: IrMeta,
    pub timings: Vec<u8>,
}

/// Asks one device to blast raw IR on one of its local bays.
#[derive(Clone, Debug, PartialEq, Eq)]
pub struct IrTransmitRequest {
    pub target: DeviceUid,
    pub local_mode: u8,
    pub local_bay: u8,
    pub timestamp: u32,
    pub meta: IrMeta,
    pub timings: Vec<u8>,
}

/// Asks one device for its EDID.
#[derive(Clone, Copy, Debug, PartialEq, Eq)]
pub struct EdidRequest {
    pub target: DeviceUid,
    /// Whether the sink's EDID is wanted rather than the source's.
    pub output: bool,
}

/// One EDID block from a device's reply.
#[derive(Clone, Debug, PartialEq, Eq)]
pub struct EdidRecord {
    pub output: bool,
    pub data: Vec<u8>,
}

/// Asks a device, addressed by serial, to switch a sink.
#[derive(Clone, Debug, PartialEq, Eq)]
pub struct SetRouteRequest {
    /// Serial of the device to act on.
    pub serial: String,
    /// Output bay to switch.
    pub sink_bay: u16,
    /// Source bay to switch it to.
    pub source_bay: u16,
    /// Whether to skip the power-on commands that normally accompany a switch.
    pub no_power_on: bool,
    /// Set when the request routes audio only.
    pub audio_only: bool,
}

/// Asks a device to rename one of its bays.
#[derive(Clone, Debug, PartialEq, Eq)]
pub struct BayNameChange {
    /// The device to act on.
    pub target: DeviceUid,
    /// The bay to rename.
    pub port: u16,
    /// The new name.
    pub name: String,
}

/// Asks a device to switch its input EDID profile.
#[derive(Clone, Copy, Debug, PartialEq, Eq)]
pub struct EdidProfileChange {
    pub target: DeviceUid,
    pub profile: EdidProfile,
}

/// Asks one device to reboot.
#[derive(Clone, Copy, Debug, PartialEq, Eq)]
pub struct RebootRequest {
    /// The device asked to reboot.
    pub target: DeviceUid,
}

/// A clipping report from an audio bay.
#[derive(Clone, Copy, Debug, PartialEq, Eq)]
pub struct AudioClip {
    /// The clipping indication, as the wire carries it.
    pub clip: u8,
}

/// What a link between two bays carries, as bits.
#[derive(Clone, Copy, Debug, PartialEq, Eq)]
pub struct LinkFeature(pub u32);

/// Asks peers to factory-reset.
#[derive(Clone, Copy, Debug, PartialEq, Eq)]
pub struct FactoryResetRequest {
    /// Set by the broadcast form, which targets every peer.
    pub all: bool,
    /// The single device addressed, if any.
    pub target: Option<DeviceUid>,
}

/// Asks a sink to enter or leave power save.
#[derive(Clone, Copy, Debug, PartialEq, Eq)]
pub struct V2ipPowerSaveRequest {
    /// The sink to act on; none on the broadcast form.
    pub target: Option<DeviceUid>,
    pub enabled: bool,
}

/// Asks one device to send a remote-control key on a bay.
#[derive(Clone, Copy, Debug, PartialEq, Eq)]
pub struct KeyTransmitRequest {
    pub target: DeviceUid,
    /// Bay in the target's own numbering, which is not a port number.
    pub local_bay: u16,
    pub key: RcKey,
}

/// Asks one device to perform a remote-control action.
#[derive(Clone, Copy, Debug, PartialEq, Eq)]
pub struct ActionTransmitRequest {
    pub target: DeviceUid,
    /// Bay in the target's own numbering, which is not a port number.
    pub local_bay: u16,
    pub action: RcAction,
}

/// Registers or unregisters a device on the source blacklist.
#[derive(Clone, Copy, Debug, PartialEq, Eq)]
pub struct V2ipBlacklistChange {
    pub target: DeviceUid,
    pub registered: bool,
}

/// Asks one sink to crop its source to a wall window.
#[derive(Clone, Copy, Debug, PartialEq, Eq)]
pub struct VideoWallCommand {
    pub target: DeviceUid,
    pub pos_x: u16,
    pub pos_y: u16,
    pub width: u16,
    pub height: u16,
    pub raster_w: u16,
    pub raster_h: u16,
    /// 0 preview, 1 store, 2 revert.
    pub op: u8,
}

/// A command addressed to a multiviewer.
#[derive(Clone, Debug, PartialEq, Eq)]
pub struct MultiviewerCommand {
    pub target: DeviceUid,
    /// The sub-opcode.
    pub op: u8,
    /// Everything after the envelope.
    pub params: Vec<u8>,
}

/// Which source endpoint an audio sink endpoint was switched to.
#[derive(Clone, Copy, Debug, PartialEq, Eq)]
pub struct AudioChangeSource {
    pub source_uid: DeviceUid,
    pub source_id: u16,
    pub target_uid: DeviceUid,
    pub target_id: u16,
}

/// Which bay a bay mirrors, if any.
#[derive(Clone, Copy, Debug, PartialEq, Eq)]
pub struct BayMirrorStatus {
    pub target: Option<BayUid>,
}

/// A network port's negotiated link speed, as the wire numbers it.
#[derive(Clone, Copy, Debug, PartialEq, Eq, Structural)]
pub struct LinkSpeed(pub u8);

/// The link errors a port reports.
#[derive(Clone, Copy, Debug, PartialEq, Eq, Structural)]
pub struct PortErrors {
    pub in_error: bool,
    pub in_fcs_error: bool,
    pub in_collision: bool,
    pub out_deferred: bool,
    pub out_excessive: bool,
    pub polarity_error: bool,
    pub skew_warning: bool,
    pub length_warning: bool,
}

/// The verdict of a virtual cable test on one pair.
#[derive(Clone, Copy, Debug, PartialEq, Eq, Structural)]
pub enum VctStatus {
    Normal,
    Warning,
}

/// The link state and diagnostics of one network port.
#[derive(Clone, Debug, PartialEq, Eq)]
pub struct NetworkPortStatus {
    pub port: u16,
    pub name: String,
    pub link_speed: LinkSpeed,
    pub link_full_duplex: bool,
    /// The port's own address, if reported.
    pub ip: Option<Ipv4>,
    /// The IGMP querier the port sees, if any.
    pub querier: Option<Ipv4>,
    pub mac_address: Option<[u8; 6]>,
    pub errors: Option<PortErrors>,
    /// The cable test verdict per pair, if one was run.
    pub vct_status: Option<[VctStatus; 4]>,
    /// Cable diagnostics per pair, as many as the port filled in.
    pub cable_status: Vec<UtpCableStatus>,
}

/// What a multiviewer reports about itself. The layout settings are carried
/// as the bytes the wire holds.
#[derive(Clone, Debug, PartialEq, Eq)]
pub struct MultiviewerStatus {
    pub uid: DeviceUid,
    /// The source device mapped to each input.
    pub mappings: [DeviceUid; 4],
    pub mcu_version: String,
    pub scaler_version: String,
    pub hw_view_mode: u8,
    pub view_mode: MultiviewerByte,
    pub pip_position: MultiviewerByte,
    pub pip_size: MultiviewerByte,
    pub output_mode: MultiviewerByte,
    pub hdcp_mode: MultiviewerByte,
    pub output_itc: MultiviewerByte,
    pub edid_template: MultiviewerByte,
    pub aspect_ratio: MultiviewerByte,
    pub auto_switch: MultiviewerByte,
    pub audio_source: MultiviewerByte,
    pub audio_volume: Option<u8>,
    pub audio_muted: MultiviewerByte,
    /// The source shown in each window.
    pub video_sources: [MultiviewerByte; 4],
    pub remote_control: MultiviewerByte,
}

/// One node of a device's audio tree.
#[derive(Clone, Debug, PartialEq, Eq)]
pub struct AudioEndpoint {
    /// The endpoint's identifier on its device.
    pub id: u8,
    /// What the endpoint can do, as `MXR_AUDIO_*` bits.
    pub features: u32,
    /// The stream the endpoint carries, if any.
    pub address: Option<V2ipStreamSource>,
    /// The endpoint this one hangs off; none at a root.
    pub parent: Option<u8>,
    /// The endpoints hanging off this one.
    pub children: Vec<u8>,
    /// Bitmask of the endpoints this one may be switched to, if reported.
    pub inputs_available: Option<u32>,
    /// Bitmask of the endpoint this one listens to, if reported.
    pub inputs_routed: Option<u32>,
    /// The device at the other end of the link, or the zero identifier.
    pub linked_device: DeviceUid,
    /// The endpoint at the other end of the link, if linked.
    pub linked_endpoint: Option<u8>,
}

/// A source bay's remote-control configuration.
#[derive(Clone, Debug, PartialEq, Eq)]
pub struct RcSettings {
    pub target: DeviceUid,
    /// The control method, as the wire numbers it; zero is infrared.
    pub rc_target: u8,
    /// The control target's address, if set.
    pub ip: Option<Ipv4>,
    pub cec_enabled: bool,
    pub cec_auto_on: bool,
    pub forward_rc: bool,
    pub forward_ir: bool,
    /// The driver state on the source, as the wire numbers it.
    pub rc_status: u8,
    /// The driver-reported status text.
    pub status_name: String,
}

/// One firmware component a device reports.
#[derive(Clone, Debug, PartialEq, Eq)]
pub struct FirmwareVersion {
    /// Which component, as the wire numbers it.
    pub firmware_type: u8,
    /// Build time, in seconds since the Unix epoch.
    pub timestamp: u32,
    /// Source revision hash.
    pub hash: u32,
    pub version: String,
}

/// The DSCP markings of a V2IP encoder's streams, where set.
#[derive(Clone, Copy, Debug, PartialEq, Eq, Structural)]
pub struct DscpMarks {
    pub video: Option<u8>,
    pub audio: Option<u8>,
    pub anc: Option<u8>,
}

/// How a V2IP output scales.
#[derive(Clone, Copy, Debug, PartialEq, Eq, Structural)]
pub struct ScalingSettings {
    /// The signal type the output scales to.
    pub mode: MxrSignalType,
    /// Refresh rate in Hz.
    pub refresh: u16,
    /// `MXR_SCALING_FLAG_*` bits.
    pub flags: u8,
}

/// A V2IP device's own encoder configuration.
#[derive(Clone, Copy, Debug, PartialEq, Eq, Structural)]
pub struct DeviceV2ipDetails {
    pub video: V2ipStreamSource,
    pub audio: V2ipStreamSource,
    pub anc: V2ipStreamSource,
    pub arc: V2ipStreamSource,
    /// Encoder rate in units of 10Mb/s, if reported.
    pub tx_rate: Option<u8>,
    pub dscp: DscpMarks,
    pub scaling: ScalingSettings,
}

/// The streams a V2IP sink is subscribed to.
#[derive(Clone, Copy, Debug, PartialEq, Eq)]
pub struct DeviceV2ipSink {
    pub addresses: V2ipStreamSources,
    /// The audio format the sender resolved, if reported.
    pub audio_fmt: Option<V2ipAudioFormat>,
}

} // verus!
