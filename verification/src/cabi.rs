//! The shapes a C caller reads: plain structs and enums, each with the
//! conversion from the library's own type. Their C layout is fixed where they
//! cross the boundary; here they are values.
#![allow(non_camel_case_types)]

use vstd::prelude::*;
use vstd::array::spec_array_fill_for_copy_type;
use vstd::std_specs::convert::FromSpecImpl;

use vstd::utf8::encode_utf8;

use crate::abi::{
    bay_or_zero, fail, fitted, mxr_bay_uid_t, mxr_result_t, mxr_tribool_t, mxr_uid_t,
    not_heard_from, put_str, recorded_text, uid_or_zero, LastError,
};
use crate::ident::uid_text;
use crate::text::{decimal_text, push_decimal};
use crate::ident::{BayUid, DeviceUid};
use crate::info::{BayInfo, DeviceInfo};
use crate::net::{ipv4_text, Ipv4};
use crate::types::{
    combined_muted, combined_volume, AudioEndpoint, DeviceV2ipDetails, DeviceV2ipSink,
    FirmwareVersion, RcSettings, EdidRecord, IrCapture, IrTransmitRequest,
    MultiviewerCommand, MultiviewerStatus, NetworkPortStatus, PortErrors, V2ipStreamSource,
    V2ipStreamSources, VctStatus, BayNameChange, SetRouteRequest,
};
use crate::types::{
    ActionTransmitRequest, AmpDolbySettings, AmpZoneSettings, ArcStatus, AudioChangeSource,
    DeviceStatus, EdidProfileChange, EdidRequest, FactoryResetRequest, IrMeta, KeyTransmitRequest,
    PowerStatus, StreamKind, TopologyEntry, UtpCableStatus, V2ipAudioFormat, V2ipBlacklistChange,
    V2ipDeviceStats, V2ipPowerSaveRequest, V2ipRxStats, V2ipTilingConfig, V2ipTxStats,
    VideoWallCommand,
};

verus! {

/// The high-level state of a device on the network.
#[derive(Clone, Copy, Debug, PartialEq, Eq, Structural)]
pub enum mxr_device_status_t {
    MXR_DEVICE_ONLINE,
    MXR_DEVICE_OFFLINE,
    MXR_DEVICE_REBOOTING,
    MXR_DEVICE_BOOTING,
    MXR_DEVICE_INACTIVE,
}

impl From<DeviceStatus> for mxr_device_status_t {
    fn from(value: DeviceStatus) -> (r: mxr_device_status_t) {
        match value {
            DeviceStatus::Online => mxr_device_status_t::MXR_DEVICE_ONLINE,
            DeviceStatus::Offline => mxr_device_status_t::MXR_DEVICE_OFFLINE,
            DeviceStatus::Rebooting => mxr_device_status_t::MXR_DEVICE_REBOOTING,
            DeviceStatus::Booting => mxr_device_status_t::MXR_DEVICE_BOOTING,
            DeviceStatus::Inactive => mxr_device_status_t::MXR_DEVICE_INACTIVE,
        }
    }
}

/// The C value of a `DeviceStatus`.
pub open spec fn c_device_status(value: DeviceStatus) -> mxr_device_status_t {
        match value {
            DeviceStatus::Online => mxr_device_status_t::MXR_DEVICE_ONLINE,
            DeviceStatus::Offline => mxr_device_status_t::MXR_DEVICE_OFFLINE,
            DeviceStatus::Rebooting => mxr_device_status_t::MXR_DEVICE_REBOOTING,
            DeviceStatus::Booting => mxr_device_status_t::MXR_DEVICE_BOOTING,
            DeviceStatus::Inactive => mxr_device_status_t::MXR_DEVICE_INACTIVE,
        }
    }

impl FromSpecImpl<DeviceStatus> for mxr_device_status_t {
    open spec fn obeys_from_spec() -> bool {
        true
    }

    open spec fn from_spec(value: DeviceStatus) -> mxr_device_status_t {
        c_device_status(value)
    }
}

/// The power state of whatever is connected to a bay. A bay that reported an
/// unknown state and one that reported nothing give the same answer.
#[derive(Clone, Copy, Debug, PartialEq, Eq, Structural)]
pub enum mxr_power_status_t {
    MXR_POWER_UNKNOWN,
    MXR_POWER_ON,
    MXR_POWER_OFF,
}

impl From<Option<PowerStatus>> for mxr_power_status_t {
    fn from(value: Option<PowerStatus>) -> (r: mxr_power_status_t) {
        match value {
            Some(PowerStatus::On) => mxr_power_status_t::MXR_POWER_ON,
            Some(PowerStatus::Off) => mxr_power_status_t::MXR_POWER_OFF,
            Some(PowerStatus::Unknown) => mxr_power_status_t::MXR_POWER_UNKNOWN,
            None => mxr_power_status_t::MXR_POWER_UNKNOWN,
        }
    }
}

/// The C value of a `Option<PowerStatus>`.
pub open spec fn c_power_status(value: Option<PowerStatus>) -> mxr_power_status_t {
        match value {
            Some(PowerStatus::On) => mxr_power_status_t::MXR_POWER_ON,
            Some(PowerStatus::Off) => mxr_power_status_t::MXR_POWER_OFF,
            Some(PowerStatus::Unknown) => mxr_power_status_t::MXR_POWER_UNKNOWN,
            None => mxr_power_status_t::MXR_POWER_UNKNOWN,
        }
    }

impl FromSpecImpl<Option<PowerStatus>> for mxr_power_status_t {
    open spec fn obeys_from_spec() -> bool {
        true
    }

    open spec fn from_spec(value: Option<PowerStatus>) -> mxr_power_status_t {
        c_power_status(value)
    }
}

/// The audio return channel a bay is carrying.
#[derive(Clone, Copy, Debug, PartialEq, Eq, Structural)]
pub enum mxr_arc_status_t {
    MXR_ARC_INACTIVE,
    MXR_ARC_HDMI,
    MXR_ARC_OPTICAL,
    MXR_ARC_ANALOG,
}

impl From<ArcStatus> for mxr_arc_status_t {
    fn from(value: ArcStatus) -> (r: mxr_arc_status_t) {
        match value {
            ArcStatus::Inactive => mxr_arc_status_t::MXR_ARC_INACTIVE,
            ArcStatus::Hdmi => mxr_arc_status_t::MXR_ARC_HDMI,
            ArcStatus::Optical => mxr_arc_status_t::MXR_ARC_OPTICAL,
            ArcStatus::Analog => mxr_arc_status_t::MXR_ARC_ANALOG,
        }
    }
}

/// The C value of a `ArcStatus`.
pub open spec fn c_arc_status(value: ArcStatus) -> mxr_arc_status_t {
        match value {
            ArcStatus::Inactive => mxr_arc_status_t::MXR_ARC_INACTIVE,
            ArcStatus::Hdmi => mxr_arc_status_t::MXR_ARC_HDMI,
            ArcStatus::Optical => mxr_arc_status_t::MXR_ARC_OPTICAL,
            ArcStatus::Analog => mxr_arc_status_t::MXR_ARC_ANALOG,
        }
    }

impl FromSpecImpl<ArcStatus> for mxr_arc_status_t {
    open spec fn obeys_from_spec() -> bool {
        true
    }

    open spec fn from_spec(value: ArcStatus) -> mxr_arc_status_t {
        c_arc_status(value)
    }
}

/// Which of a V2IP device's streams an address describes.
#[derive(Clone, Copy, Debug, PartialEq, Eq, Structural)]
pub enum mxr_stream_kind_t {
    MXR_STREAM_VIDEO,
    MXR_STREAM_AUDIO,
    MXR_STREAM_ANC,
    MXR_STREAM_ARC,
}

impl From<StreamKind> for mxr_stream_kind_t {
    fn from(value: StreamKind) -> (r: mxr_stream_kind_t) {
        match value {
            StreamKind::Video => mxr_stream_kind_t::MXR_STREAM_VIDEO,
            StreamKind::Audio => mxr_stream_kind_t::MXR_STREAM_AUDIO,
            StreamKind::Anc => mxr_stream_kind_t::MXR_STREAM_ANC,
            StreamKind::Arc => mxr_stream_kind_t::MXR_STREAM_ARC,
        }
    }
}

/// The C value of a `StreamKind`.
pub open spec fn c_stream_kind(value: StreamKind) -> mxr_stream_kind_t {
        match value {
            StreamKind::Video => mxr_stream_kind_t::MXR_STREAM_VIDEO,
            StreamKind::Audio => mxr_stream_kind_t::MXR_STREAM_AUDIO,
            StreamKind::Anc => mxr_stream_kind_t::MXR_STREAM_ANC,
            StreamKind::Arc => mxr_stream_kind_t::MXR_STREAM_ARC,
        }
    }

impl FromSpecImpl<StreamKind> for mxr_stream_kind_t {
    open spec fn obeys_from_spec() -> bool {
        true
    }

    open spec fn from_spec(value: StreamKind) -> mxr_stream_kind_t {
        c_stream_kind(value)
    }
}

/// An amplifier zone's gain, delay, tone and power settings, as C holds them.
#[derive(Clone, Copy, Debug, PartialEq, Eq)]
pub struct mxr_amp_zone_settings_t {
    pub gain_left: u8,
    pub gain_right: u8,
    pub volume_min: u8,
    pub volume_max: u8,
    pub bass: u8,
    pub treble: u8,
    pub bridged: u8,
    pub power_mode: u8,
    pub power_level: u8,
    pub delay_left: u32,
    pub delay_right: u32,
    pub power_timeout: u32,
    pub eq_left: [u8; 5],
    pub eq_right: [u8; 5],
}

impl From<AmpZoneSettings> for mxr_amp_zone_settings_t {
    fn from(s: AmpZoneSettings) -> (r: mxr_amp_zone_settings_t) {
        mxr_amp_zone_settings_t {
            gain_left: s.gain_left,
            gain_right: s.gain_right,
            volume_min: s.volume_min,
            volume_max: s.volume_max,
            bass: s.bass,
            treble: s.treble,
            bridged: s.bridged,
            power_mode: s.power_mode,
            power_level: s.power_level,
            delay_left: s.delay_left,
            delay_right: s.delay_right,
            power_timeout: s.power_timeout,
            eq_left: s.eq_left,
            eq_right: s.eq_right,
        }
    }
}

impl FromSpecImpl<AmpZoneSettings> for mxr_amp_zone_settings_t {
    open spec fn obeys_from_spec() -> bool {
        true
    }

    open spec fn from_spec(s: AmpZoneSettings) -> mxr_amp_zone_settings_t {
        mxr_amp_zone_settings_t {
            gain_left: s.gain_left,
            gain_right: s.gain_right,
            volume_min: s.volume_min,
            volume_max: s.volume_max,
            bass: s.bass,
            treble: s.treble,
            bridged: s.bridged,
            power_mode: s.power_mode,
            power_level: s.power_level,
            delay_left: s.delay_left,
            delay_right: s.delay_right,
            power_timeout: s.power_timeout,
            eq_left: s.eq_left,
            eq_right: s.eq_right,
        }
    }
}

impl From<mxr_amp_zone_settings_t> for AmpZoneSettings {
    fn from(s: mxr_amp_zone_settings_t) -> (r: AmpZoneSettings) {
        AmpZoneSettings {
            gain_left: s.gain_left,
            gain_right: s.gain_right,
            volume_min: s.volume_min,
            volume_max: s.volume_max,
            bass: s.bass,
            treble: s.treble,
            bridged: s.bridged,
            power_mode: s.power_mode,
            power_level: s.power_level,
            delay_left: s.delay_left,
            delay_right: s.delay_right,
            power_timeout: s.power_timeout,
            eq_left: s.eq_left,
            eq_right: s.eq_right,
        }
    }
}

impl FromSpecImpl<mxr_amp_zone_settings_t> for AmpZoneSettings {
    open spec fn obeys_from_spec() -> bool {
        true
    }

    open spec fn from_spec(s: mxr_amp_zone_settings_t) -> AmpZoneSettings {
        AmpZoneSettings {
            gain_left: s.gain_left,
            gain_right: s.gain_right,
            volume_min: s.volume_min,
            volume_max: s.volume_max,
            bass: s.bass,
            treble: s.treble,
            bridged: s.bridged,
            power_mode: s.power_mode,
            power_level: s.power_level,
            delay_left: s.delay_left,
            delay_right: s.delay_right,
            power_timeout: s.power_timeout,
            eq_left: s.eq_left,
            eq_right: s.eq_right,
        }
    }
}

/// Transmitter stream statistics.
#[derive(Clone, Copy, Debug, PartialEq, Eq, Structural)]
pub struct mxr_v2ip_tx_stats_t {
    pub video: u32,
    pub audio: u32,
    pub anc: u32,
    pub stream_down: u32,
    pub overflow: u32,
}

impl From<V2ipTxStats> for mxr_v2ip_tx_stats_t {
    fn from(s: V2ipTxStats) -> (r: mxr_v2ip_tx_stats_t) {
        mxr_v2ip_tx_stats_t {
            video: s.video,
            audio: s.audio,
            anc: s.anc,
            stream_down: s.stream_down,
            overflow: s.overflow,
        }
    }
}

impl FromSpecImpl<V2ipTxStats> for mxr_v2ip_tx_stats_t {
    open spec fn obeys_from_spec() -> bool {
        true
    }

    open spec fn from_spec(s: V2ipTxStats) -> mxr_v2ip_tx_stats_t {
        mxr_v2ip_tx_stats_t {
            video: s.video,
            audio: s.audio,
            anc: s.anc,
            stream_down: s.stream_down,
            overflow: s.overflow,
        }
    }
}

/// Receiver stream statistics; `decoder_state` is 0 unknown, 1 healthy, 2 bad,
/// 3 starting.
#[derive(Clone, Copy, Debug, PartialEq, Eq, Structural)]
pub struct mxr_v2ip_rx_stats_t {
    pub video_total: u32,
    pub video_dropped: u32,
    pub video_seq_errors: u32,
    pub wdt_timeout: u32,
    pub audio_total: u32,
    pub audio_dropped: u32,
    pub audio_seq_errors: u32,
    pub anc_total: u32,
    pub anc_dropped: u32,
    pub anc_seq_errors: u32,
    pub decoder_state: u8,
}

impl From<V2ipRxStats> for mxr_v2ip_rx_stats_t {
    fn from(s: V2ipRxStats) -> (r: mxr_v2ip_rx_stats_t) {
        mxr_v2ip_rx_stats_t {
            video_total: s.video_total,
            video_dropped: s.video_dropped,
            video_seq_errors: s.video_seq_errors,
            wdt_timeout: s.wdt_timeout,
            audio_total: s.audio_total,
            audio_dropped: s.audio_dropped,
            audio_seq_errors: s.audio_seq_errors,
            anc_total: s.anc_total,
            anc_dropped: s.anc_dropped,
            anc_seq_errors: s.anc_seq_errors,
            decoder_state: s.decoder_state.0,
        }
    }
}

impl FromSpecImpl<V2ipRxStats> for mxr_v2ip_rx_stats_t {
    open spec fn obeys_from_spec() -> bool {
        true
    }

    open spec fn from_spec(s: V2ipRxStats) -> mxr_v2ip_rx_stats_t {
        mxr_v2ip_rx_stats_t {
            video_total: s.video_total,
            video_dropped: s.video_dropped,
            video_seq_errors: s.video_seq_errors,
            wdt_timeout: s.wdt_timeout,
            audio_total: s.audio_total,
            audio_dropped: s.audio_dropped,
            audio_seq_errors: s.audio_seq_errors,
            anc_total: s.anc_total,
            anc_dropped: s.anc_dropped,
            anc_seq_errors: s.anc_seq_errors,
            decoder_state: s.decoder_state.0,
        }
    }
}

/// The C shape of transmitter statistics.
pub open spec fn c_tx_stats(s: V2ipTxStats) -> mxr_v2ip_tx_stats_t {
    mxr_v2ip_tx_stats_t {
        video: s.video,
        audio: s.audio,
        anc: s.anc,
        stream_down: s.stream_down,
        overflow: s.overflow,
    }
}

/// The C shape of receiver statistics.
pub open spec fn c_rx_stats(s: V2ipRxStats) -> mxr_v2ip_rx_stats_t {
    mxr_v2ip_rx_stats_t {
        video_total: s.video_total,
        video_dropped: s.video_dropped,
        video_seq_errors: s.video_seq_errors,
        wdt_timeout: s.wdt_timeout,
        audio_total: s.audio_total,
        audio_dropped: s.audio_dropped,
        audio_seq_errors: s.audio_seq_errors,
        anc_total: s.anc_total,
        anc_dropped: s.anc_dropped,
        anc_seq_errors: s.anc_seq_errors,
        decoder_state: s.decoder_state.0,
    }
}

/// A device's V2IP statistics, cumulative and over the last minute.
#[derive(Clone, Copy, Debug, PartialEq, Eq, Structural)]
pub struct mxr_v2ip_stats_t {
    pub tx: mxr_v2ip_tx_stats_t,
    pub tx_per_minute: mxr_v2ip_tx_stats_t,
    pub rx: mxr_v2ip_rx_stats_t,
    pub rx_per_minute: mxr_v2ip_rx_stats_t,
}

impl From<V2ipDeviceStats> for mxr_v2ip_stats_t {
    fn from(s: V2ipDeviceStats) -> (r: mxr_v2ip_stats_t) {
        mxr_v2ip_stats_t {
            tx: mxr_v2ip_tx_stats_t::from(s.tx),
            tx_per_minute: mxr_v2ip_tx_stats_t::from(s.tx_per_minute),
            rx: mxr_v2ip_rx_stats_t::from(s.rx),
            rx_per_minute: mxr_v2ip_rx_stats_t::from(s.rx_per_minute),
        }
    }
}

impl FromSpecImpl<V2ipDeviceStats> for mxr_v2ip_stats_t {
    open spec fn obeys_from_spec() -> bool {
        true
    }

    open spec fn from_spec(s: V2ipDeviceStats) -> mxr_v2ip_stats_t {
        mxr_v2ip_stats_t {
            tx: c_tx_stats(s.tx),
            tx_per_minute: c_tx_stats(s.tx_per_minute),
            rx: c_rx_stats(s.rx),
            rx_per_minute: c_rx_stats(s.rx_per_minute),
        }
    }
}

/// The window a sink is currently told to show.
#[derive(Clone, Copy, Debug, PartialEq, Eq)]
pub struct mxr_tiling_config_t {
    pub target: mxr_uid_t,
    pub pos_x: u16,
    pub pos_y: u16,
    pub width: u16,
    pub height: u16,
}

impl From<V2ipTilingConfig> for mxr_tiling_config_t {
    fn from(t: V2ipTilingConfig) -> (r: mxr_tiling_config_t) {
        mxr_tiling_config_t {
            target: mxr_uid_t { bytes: t.target.bytes },
            pos_x: t.pos_x,
            pos_y: t.pos_y,
            width: t.width,
            height: t.height,
        }
    }
}

impl FromSpecImpl<V2ipTilingConfig> for mxr_tiling_config_t {
    open spec fn obeys_from_spec() -> bool {
        true
    }

    open spec fn from_spec(t: V2ipTilingConfig) -> mxr_tiling_config_t {
        mxr_tiling_config_t {
            target: mxr_uid_t { bytes: t.target.bytes },
            pos_x: t.pos_x,
            pos_y: t.pos_y,
            width: t.width,
            height: t.height,
        }
    }
}

/// The diagnostic result for one UTP cable pair.
#[derive(Clone, Copy, Debug, PartialEq, Eq, Structural)]
pub struct mxr_cable_status_t {
    pub polarity: bool,
    pub pair: u8,
    pub skew: u32,
    pub length: u32,
}

impl From<UtpCableStatus> for mxr_cable_status_t {
    fn from(c: UtpCableStatus) -> (r: mxr_cable_status_t) {
        mxr_cable_status_t {
            polarity: c.polarity,
            pair: c.pair,
            skew: c.skew,
            length: c.length,
        }
    }
}

impl FromSpecImpl<UtpCableStatus> for mxr_cable_status_t {
    open spec fn obeys_from_spec() -> bool {
        true
    }

    open spec fn from_spec(c: UtpCableStatus) -> mxr_cable_status_t {
        mxr_cable_status_t {
            polarity: c.polarity,
            pair: c.pair,
            skew: c.skew,
            length: c.length,
        }
    }
}

/// One device in a topology report.
#[derive(Clone, Copy, Debug, PartialEq, Eq)]
pub struct mxr_topology_entry_t {
    pub uid: mxr_uid_t,
    pub mask: u32,
}

impl From<TopologyEntry> for mxr_topology_entry_t {
    fn from(e: TopologyEntry) -> (r: mxr_topology_entry_t) {
        mxr_topology_entry_t {
            uid: mxr_uid_t { bytes: e.uid.bytes },
            mask: e.mask,
        }
    }
}

impl FromSpecImpl<TopologyEntry> for mxr_topology_entry_t {
    open spec fn obeys_from_spec() -> bool {
        true
    }

    open spec fn from_spec(e: TopologyEntry) -> mxr_topology_entry_t {
        mxr_topology_entry_t {
            uid: mxr_uid_t { bytes: e.uid.bytes },
            mask: e.mask,
        }
    }
}

/// An amplifier's Dolby settings: mode 0 standard, 1 three-zone, 2 four-zone.
#[derive(Clone, Copy, Debug, PartialEq, Eq, Structural)]
pub struct mxr_dolby_settings_t {
    pub mode: u8,
    pub pcm_upmix: bool,
    pub dolby_detected: bool,
    pub pcm_upmix_active: bool,
}

impl From<AmpDolbySettings> for mxr_dolby_settings_t {
    fn from(s: AmpDolbySettings) -> (r: mxr_dolby_settings_t) {
        mxr_dolby_settings_t {
            mode: s.mode,
            pcm_upmix: s.pcm_upmix,
            dolby_detected: s.dolby_detected,
            pcm_upmix_active: s.pcm_upmix_active,
        }
    }
}

impl FromSpecImpl<AmpDolbySettings> for mxr_dolby_settings_t {
    open spec fn obeys_from_spec() -> bool {
        true
    }

    open spec fn from_spec(s: AmpDolbySettings) -> mxr_dolby_settings_t {
        mxr_dolby_settings_t {
            mode: s.mode,
            pcm_upmix: s.pcm_upmix,
            dolby_detected: s.dolby_detected,
            pcm_upmix_active: s.pcm_upmix_active,
        }
    }
}

/// A stream's sample rate and channel count, as C passes it.
#[derive(Clone, Copy, Debug, PartialEq, Eq, Structural)]
pub struct mxr_audio_format_t {
    pub sample_rate: u32,
    pub channels: u8,
}

impl From<mxr_audio_format_t> for V2ipAudioFormat {
    fn from(f: mxr_audio_format_t) -> (r: V2ipAudioFormat) {
        V2ipAudioFormat { sample_rate: f.sample_rate, channels: f.channels }
    }
}

impl FromSpecImpl<mxr_audio_format_t> for V2ipAudioFormat {
    open spec fn obeys_from_spec() -> bool {
        true
    }

    open spec fn from_spec(f: mxr_audio_format_t) -> V2ipAudioFormat {
        V2ipAudioFormat { sample_rate: f.sample_rate, channels: f.channels }
    }
}

/// Asks one device for its EDID.
#[derive(Clone, Copy, Debug, PartialEq, Eq)]
pub struct mxr_edid_request_t {
    pub target: mxr_uid_t,
    pub output: bool,
}

impl From<EdidRequest> for mxr_edid_request_t {
    fn from(q: EdidRequest) -> (r: mxr_edid_request_t) {
        mxr_edid_request_t {
            target: mxr_uid_t { bytes: q.target.bytes },
            output: q.output,
        }
    }
}

impl FromSpecImpl<EdidRequest> for mxr_edid_request_t {
    open spec fn obeys_from_spec() -> bool {
        true
    }

    open spec fn from_spec(q: EdidRequest) -> mxr_edid_request_t {
        mxr_edid_request_t {
            target: mxr_uid_t { bytes: q.target.bytes },
            output: q.output,
        }
    }
}

/// Asks a device to switch its input EDID profile.
#[derive(Clone, Copy, Debug, PartialEq, Eq)]
pub struct mxr_edid_profile_change_t {
    pub target: mxr_uid_t,
    pub profile: u16,
}

impl From<EdidProfileChange> for mxr_edid_profile_change_t {
    fn from(c: EdidProfileChange) -> (r: mxr_edid_profile_change_t) {
        mxr_edid_profile_change_t {
            target: mxr_uid_t { bytes: c.target.bytes },
            profile: c.profile.0,
        }
    }
}

impl FromSpecImpl<EdidProfileChange> for mxr_edid_profile_change_t {
    open spec fn obeys_from_spec() -> bool {
        true
    }

    open spec fn from_spec(c: EdidProfileChange) -> mxr_edid_profile_change_t {
        mxr_edid_profile_change_t {
            target: mxr_uid_t { bytes: c.target.bytes },
            profile: c.profile.0,
        }
    }
}

/// Asks one device to send a remote-control key on a bay, numbered as that
/// device numbers its bays.
#[derive(Clone, Copy, Debug, PartialEq, Eq)]
pub struct mxr_key_transmit_request_t {
    pub target: mxr_uid_t,
    pub local_bay: u16,
    pub key: u16,
}

impl From<KeyTransmitRequest> for mxr_key_transmit_request_t {
    fn from(q: KeyTransmitRequest) -> (r: mxr_key_transmit_request_t) {
        mxr_key_transmit_request_t {
            target: mxr_uid_t { bytes: q.target.bytes },
            local_bay: q.local_bay,
            key: q.key.0,
        }
    }
}

impl FromSpecImpl<KeyTransmitRequest> for mxr_key_transmit_request_t {
    open spec fn obeys_from_spec() -> bool {
        true
    }

    open spec fn from_spec(q: KeyTransmitRequest) -> mxr_key_transmit_request_t {
        mxr_key_transmit_request_t {
            target: mxr_uid_t { bytes: q.target.bytes },
            local_bay: q.local_bay,
            key: q.key.0,
        }
    }
}

/// Asks one device to perform a remote-control action on a bay, numbered as
/// that device numbers its bays.
#[derive(Clone, Copy, Debug, PartialEq, Eq)]
pub struct mxr_action_transmit_request_t {
    pub target: mxr_uid_t,
    pub local_bay: u16,
    pub action: u16,
}

impl From<ActionTransmitRequest> for mxr_action_transmit_request_t {
    fn from(q: ActionTransmitRequest) -> (r: mxr_action_transmit_request_t) {
        mxr_action_transmit_request_t {
            target: mxr_uid_t { bytes: q.target.bytes },
            local_bay: q.local_bay,
            action: q.action.0,
        }
    }
}

impl FromSpecImpl<ActionTransmitRequest> for mxr_action_transmit_request_t {
    open spec fn obeys_from_spec() -> bool {
        true
    }

    open spec fn from_spec(q: ActionTransmitRequest) -> mxr_action_transmit_request_t {
        mxr_action_transmit_request_t {
            target: mxr_uid_t { bytes: q.target.bytes },
            local_bay: q.local_bay,
            action: q.action.0,
        }
    }
}

/// The metadata shared by the raw-IR capture and transmit frames.
#[derive(Clone, Copy, Debug, PartialEq, Eq, Structural)]
pub struct mxr_ir_meta_t {
    pub timer_resolution: u16,
    pub frequency: u16,
    pub nb_timings: u16,
    pub repeat_offset: u16,
    pub status: u8,
}

impl From<IrMeta> for mxr_ir_meta_t {
    fn from(m: IrMeta) -> (r: mxr_ir_meta_t) {
        mxr_ir_meta_t {
            timer_resolution: m.timer_resolution,
            frequency: m.frequency,
            nb_timings: m.nb_timings,
            repeat_offset: m.repeat_offset,
            status: m.status,
        }
    }
}

impl FromSpecImpl<IrMeta> for mxr_ir_meta_t {
    open spec fn obeys_from_spec() -> bool {
        true
    }

    open spec fn from_spec(m: IrMeta) -> mxr_ir_meta_t {
        mxr_ir_meta_t {
            timer_resolution: m.timer_resolution,
            frequency: m.frequency,
            nb_timings: m.nb_timings,
            repeat_offset: m.repeat_offset,
            status: m.status,
        }
    }
}

/// Registers or unregisters a device on the source blacklist.
#[derive(Clone, Copy, Debug, PartialEq, Eq)]
pub struct mxr_blacklist_change_t {
    pub target: mxr_uid_t,
    pub registered: bool,
}

impl From<V2ipBlacklistChange> for mxr_blacklist_change_t {
    fn from(c: V2ipBlacklistChange) -> (r: mxr_blacklist_change_t) {
        mxr_blacklist_change_t {
            target: mxr_uid_t { bytes: c.target.bytes },
            registered: c.registered,
        }
    }
}

impl FromSpecImpl<V2ipBlacklistChange> for mxr_blacklist_change_t {
    open spec fn obeys_from_spec() -> bool {
        true
    }

    open spec fn from_spec(c: V2ipBlacklistChange) -> mxr_blacklist_change_t {
        mxr_blacklist_change_t {
            target: mxr_uid_t { bytes: c.target.bytes },
            registered: c.registered,
        }
    }
}

/// Asks one sink to crop its source to a wall window; `op` is 0 preview,
/// 1 store, 2 revert.
#[derive(Clone, Copy, Debug, PartialEq, Eq)]
pub struct mxr_video_wall_command_t {
    pub target: mxr_uid_t,
    pub pos_x: u16,
    pub pos_y: u16,
    pub width: u16,
    pub height: u16,
    pub raster_w: u16,
    pub raster_h: u16,
    pub op: u8,
}

impl From<VideoWallCommand> for mxr_video_wall_command_t {
    fn from(c: VideoWallCommand) -> (r: mxr_video_wall_command_t) {
        mxr_video_wall_command_t {
            target: mxr_uid_t { bytes: c.target.bytes },
            pos_x: c.pos_x,
            pos_y: c.pos_y,
            width: c.width,
            height: c.height,
            raster_w: c.raster_w,
            raster_h: c.raster_h,
            op: c.op,
        }
    }
}

impl FromSpecImpl<VideoWallCommand> for mxr_video_wall_command_t {
    open spec fn obeys_from_spec() -> bool {
        true
    }

    open spec fn from_spec(c: VideoWallCommand) -> mxr_video_wall_command_t {
        mxr_video_wall_command_t {
            target: mxr_uid_t { bytes: c.target.bytes },
            pos_x: c.pos_x,
            pos_y: c.pos_y,
            width: c.width,
            height: c.height,
            raster_w: c.raster_w,
            raster_h: c.raster_h,
            op: c.op,
        }
    }
}

/// Which source endpoint an audio sink endpoint was switched to.
#[derive(Clone, Copy, Debug, PartialEq, Eq)]
pub struct mxr_audio_change_source_t {
    pub source_uid: mxr_uid_t,
    pub source_id: u16,
    pub target_uid: mxr_uid_t,
    pub target_id: u16,
}

impl From<AudioChangeSource> for mxr_audio_change_source_t {
    fn from(c: AudioChangeSource) -> (r: mxr_audio_change_source_t) {
        mxr_audio_change_source_t {
            source_uid: mxr_uid_t { bytes: c.source_uid.bytes },
            source_id: c.source_id,
            target_uid: mxr_uid_t { bytes: c.target_uid.bytes },
            target_id: c.target_id,
        }
    }
}

impl FromSpecImpl<AudioChangeSource> for mxr_audio_change_source_t {
    open spec fn obeys_from_spec() -> bool {
        true
    }

    open spec fn from_spec(c: AudioChangeSource) -> mxr_audio_change_source_t {
        mxr_audio_change_source_t {
            source_uid: mxr_uid_t { bytes: c.source_uid.bytes },
            source_id: c.source_id,
            target_uid: mxr_uid_t { bytes: c.target_uid.bytes },
            target_id: c.target_id,
        }
    }
}

/// The identifier C sees for a request that may address no single device:
/// the zero identifier then.
pub open spec fn zero_or(uid: Option<DeviceUid>) -> mxr_uid_t {
    match uid {
        Some(u) => mxr_uid_t { bytes: u.bytes },
        None => mxr_uid_t { bytes: spec_array_fill_for_copy_type::<u8, 16>(0u8) },
    }
}

/// Asks peers to factory-reset: all of them, one, or only the sender.
#[derive(Clone, Copy, Debug, PartialEq, Eq)]
pub struct mxr_factory_reset_request_t {
    pub all: bool,
    /// The single device addressed, zero when none is.
    pub target: mxr_uid_t,
}

impl From<FactoryResetRequest> for mxr_factory_reset_request_t {
    fn from(q: FactoryResetRequest) -> (r: mxr_factory_reset_request_t) {
        let target = uid_or_zero(q.target);
        proof {
            assert(target == zero_or(q.target)) by {
                if q.target is None {
                    assert(target.bytes =~= spec_array_fill_for_copy_type::<u8, 16>(0u8));
                }
            }
        }
        mxr_factory_reset_request_t { all: q.all, target }
    }
}

impl FromSpecImpl<FactoryResetRequest> for mxr_factory_reset_request_t {
    open spec fn obeys_from_spec() -> bool {
        true
    }

    open spec fn from_spec(q: FactoryResetRequest) -> mxr_factory_reset_request_t {
        mxr_factory_reset_request_t { all: q.all, target: zero_or(q.target) }
    }
}

/// Asks a sink to enter or leave power save.
#[derive(Clone, Copy, Debug, PartialEq, Eq)]
pub struct mxr_power_save_request_t {
    /// The sink to act on, zero on the broadcast form.
    pub target: mxr_uid_t,
    pub enabled: bool,
}

impl From<V2ipPowerSaveRequest> for mxr_power_save_request_t {
    fn from(q: V2ipPowerSaveRequest) -> (r: mxr_power_save_request_t) {
        let target = uid_or_zero(q.target);
        proof {
            assert(target == zero_or(q.target)) by {
                if q.target is None {
                    assert(target.bytes =~= spec_array_fill_for_copy_type::<u8, 16>(0u8));
                }
            }
        }
        mxr_power_save_request_t { target, enabled: q.enabled }
    }
}

impl FromSpecImpl<V2ipPowerSaveRequest> for mxr_power_save_request_t {
    open spec fn obeys_from_spec() -> bool {
        true
    }

    open spec fn from_spec(q: V2ipPowerSaveRequest) -> mxr_power_save_request_t {
        mxr_power_save_request_t { target: zero_or(q.target), enabled: q.enabled }
    }
}

/// Bytes a device, bay or port name needs, the terminator included. The wire
/// field is 16 bytes wide; the rest is headroom for derived names.
pub const MXR_NAME_LEN: usize = 32;

/// Bytes a serial number needs, the terminator included.
pub const MXR_SERIAL_LEN: usize = 32;

/// Bytes a model name needs, the terminator included.
pub const MXR_MODEL_LEN: usize = 48;

/// Bytes a firmware version string needs, the terminator included.
pub const MXR_VERSION_LEN: usize = 129;

/// Bytes a signal description needs, the terminator included.
pub const MXR_SIGNAL_TYPE_LEN: usize = 48;

/// Bytes a device's system-status message needs, the terminator included.
pub const MXR_MESSAGE_LEN: usize = 128;

/// Bytes an IPv4 address needs as text, the terminator included.
pub const MXR_IP_STRING_LEN: usize = 16;

/// The text of an address a field shows: empty when there is none.
pub open spec fn ip_field_text(ip: Option<Ipv4>) -> Seq<char> {
    match ip {
        Some(a) => ipv4_text(a),
        None => Seq::empty(),
    }
}

/// Writes an address into a fixed-width field, leaving it empty when there is
/// none.
pub fn put_ip(dst: &mut [u8], ip: Option<Ipv4>)
    ensures
        final(dst)@ == fitted(encode_utf8(ip_field_text(ip)), old(dst)@.len() as int),
{
    let text = match ip {
        Some(a) => a.to_text(),
        None => String::new(),
    };
    put_str(dst, text.as_str());
}

/// One multicast stream address, as C reads it.
#[derive(Clone, Copy, Debug, PartialEq, Eq)]
pub struct mxr_stream_source_t {
    pub kind: mxr_stream_kind_t,
    /// The group as a dotted quad.
    pub ip: [u8; 16],
    pub port: u16,
    /// Whether this is a usable address: a multicast group and a non-zero
    /// port, both.
    pub valid: bool,
}

/// Whether `c` is the C shape of the stream `s`: its kind, its group as a
/// dotted quad, its port, and whether it is usable.
pub open spec fn c_stream(c: mxr_stream_source_t, s: V2ipStreamSource) -> bool {
    &&& c.kind == c_stream_kind(s.kind)
    &&& c.ip@ == fitted(encode_utf8(ipv4_text(s.ip)), 16)
    &&& c.port == s.port
    &&& c.valid == (crate::types::is_multicast(s.ip) && s.port != 0)
}

/// Whether `c` is the C shape of what one source advertises.
pub open spec fn c_sources(c: mxr_stream_sources_t, s: V2ipStreamSources) -> bool {
    &&& c.uid.bytes == s.uid.bytes
    &&& c_stream(c.video, s.video)
    &&& c_stream(c.audio, s.audio)
    &&& c_stream(c.anc, s.anc)
    &&& c.has_arc == s.arc is Some
    &&& s.arc matches Some(a) ==> c_stream(c.arc, a)
}

impl mxr_stream_source_t {
    /// The C shape of one advertised stream.
    pub fn of(s: V2ipStreamSource) -> (r: mxr_stream_source_t)
        ensures
            c_stream(r, s),
    {
        let mut out = mxr_stream_source_t {
            kind: mxr_stream_kind_t::from(s.kind),
            ip: [0u8; 16],
            port: s.port,
            valid: s.is_valid(),
        };
        put_ip(&mut out.ip, Some(s.ip));
        out
    }
}

/// The streams one V2IP source advertises, as C reads them.
#[derive(Clone, Copy, Debug, PartialEq, Eq)]
pub struct mxr_stream_sources_t {
    pub uid: mxr_uid_t,
    pub video: mxr_stream_source_t,
    pub audio: mxr_stream_source_t,
    pub anc: mxr_stream_source_t,
    /// Whether an audio-return stream is advertised.
    pub has_arc: bool,
    /// The audio-return stream; meaningful only when `has_arc` is set.
    pub arc: mxr_stream_source_t,
}

impl mxr_stream_sources_t {
    /// The C shape of what one source advertises.
    pub fn of(s: V2ipStreamSources) -> (r: mxr_stream_sources_t)
        ensures
            c_sources(r, s),
    {
        let arc = match s.arc {
            Some(a) => a,
            None => V2ipStreamSource {
                kind: StreamKind::Video,
                ip: Ipv4 { a: 0, b: 0, c: 0, d: 0 },
                port: 0,
            },
        };
        mxr_stream_sources_t {
            uid: mxr_uid_t::from_uid(s.uid),
            video: mxr_stream_source_t::of(s.video),
            audio: mxr_stream_source_t::of(s.audio),
            anc: mxr_stream_source_t::of(s.anc),
            has_arc: s.arc.is_some(),
            arc: mxr_stream_source_t::of(arc),
        }
    }
}

/// What a bay is, and what is connected to it, as C reads it.
#[derive(Clone, Copy, Debug, PartialEq, Eq)]
pub struct mxr_bay_info_t {
    pub uid: mxr_bay_uid_t,
    pub port_name: [u8; MXR_NAME_LEN],
    pub user_name: [u8; MXR_NAME_LEN],
    pub bay_num: u8,
    pub features: u32,
    pub is_input: bool,
    pub is_output: bool,
    pub is_audio: bool,
    pub has_dolby: bool,
    pub is_local: bool,
    pub video_source: mxr_bay_uid_t,
    pub audio_source: mxr_bay_uid_t,
    pub power_status: mxr_power_status_t,
    pub hidden: mxr_tribool_t,
    pub faulty: mxr_tribool_t,
    pub poe_powered: mxr_tribool_t,
    pub hdbt_connected: mxr_tribool_t,
    pub signal_detected: mxr_tribool_t,
    pub hpd_detected: mxr_tribool_t,
    pub cec_detected: mxr_tribool_t,
    pub encoder_disabled: mxr_tribool_t,
    pub decoder_disabled: mxr_tribool_t,
    pub signal_type: [u8; MXR_SIGNAL_TYPE_LEN],
    pub signal_mode: u16,
    pub arc: mxr_arc_status_t,
    pub has_volume: bool,
    pub volume: u8,
    pub muted: mxr_tribool_t,
    pub has_rc_type: bool,
    pub rc_type: u8,
    pub has_edid_profile: bool,
    pub edid_profile: u16,
    pub mirror: mxr_bay_uid_t,
    /// The audio endpoint the bay feeds, or -1 on a device without them.
    pub audio_endpoint: i16,
    pub linked_bay: mxr_bay_uid_t,
    pub v2ip_uid: mxr_uid_t,
    pub filtered_count: usize,
}

/// Whether `c` is the C shape of the bay `b`, the zero bay standing for none.
pub open spec fn bay_field(c: mxr_bay_uid_t, b: Option<BayUid>) -> bool {
    match b {
        Some(x) => c.device.bytes == x.device.bytes && c.port == x.port,
        None => c.port == 0 && forall|i: int| 0 <= i < 16 ==> c.device.bytes[i] == 0u8,
    }
}

/// The text a signal-type field shows: empty when the bay has not said.
pub open spec fn optional_text(t: Option<String>) -> Seq<char> {
    match t {
        Some(s) => s@,
        None => Seq::empty(),
    }
}

impl mxr_bay_info_t {
    /// Copies a bay snapshot into the C shape.
    pub fn of(info: &BayInfo) -> (r: mxr_bay_info_t)
        ensures
            r.uid.device.bytes == info.uid.device.bytes && r.uid.port == info.uid.port,
            r.port_name@ == fitted(encode_utf8(info.port_name@), MXR_NAME_LEN as int),
            r.user_name@ == fitted(encode_utf8(info.user_name@), MXR_NAME_LEN as int),
            r.bay_num == info.bay_num,
            r.features == info.features,
            r.is_input == info.is_input,
            r.is_output == info.is_output,
            r.is_audio == info.is_audio,
            r.has_dolby == info.has_dolby,
            r.is_local == info.is_local,
            bay_field(r.video_source, info.video_source),
            bay_field(r.audio_source, info.audio_source),
            r.power_status == c_power_status(info.power_status),
            r.hidden == mxr_tribool_t::spec_from(info.hidden),
            r.faulty == mxr_tribool_t::spec_from(info.faulty),
            r.poe_powered == mxr_tribool_t::spec_from(info.poe_powered),
            r.hdbt_connected == mxr_tribool_t::spec_from(info.hdbt_connected),
            r.signal_detected == mxr_tribool_t::spec_from(info.signal_detected),
            r.hpd_detected == mxr_tribool_t::spec_from(info.hpd_detected),
            r.cec_detected == mxr_tribool_t::spec_from(info.cec_detected),
            r.encoder_disabled == mxr_tribool_t::spec_from(info.encoder_disabled),
            r.decoder_disabled == mxr_tribool_t::spec_from(info.decoder_disabled),
            r.signal_type@ == fitted(
                encode_utf8(optional_text(info.signal_type)),
                MXR_SIGNAL_TYPE_LEN as int,
            ),
            r.signal_mode == info.signal_mode.0,
            r.arc == c_arc_status(info.arc),
            r.has_volume == info.volume is Some,
            r.volume == match info.volume {
                Some(v) => combined_volume(v),
                None => 0,
            },
            r.muted == mxr_tribool_t::spec_from(
                match info.volume {
                    Some(v) => combined_muted(v),
                    None => None,
                },
            ),
            r.has_rc_type == info.rc_type is Some,
            r.rc_type == match info.rc_type {
                Some(t) => t.0,
                None => 0,
            },
            r.has_edid_profile == info.edid_profile is Some,
            r.edid_profile == match info.edid_profile {
                Some(p) => p.0,
                None => 0,
            },
            bay_field(r.mirror, info.mirror.target),
            r.audio_endpoint == match info.audio_endpoint {
                Some(e) => e as i16,
                None => -1i16,
            },
            bay_field(r.linked_bay, info.linked_bay),
            r.v2ip_uid.bytes == info.v2ip_uid.bytes,
            r.filtered_count == info.filtered@.len(),
    {
        let (volume, muted) = match info.volume {
            Some(v) => (v.volume(), v.muted()),
            None => (0, None),
        };
        let mut out = mxr_bay_info_t {
            uid: mxr_bay_uid_t::from_bay(info.uid),
            port_name: [0u8; MXR_NAME_LEN],
            user_name: [0u8; MXR_NAME_LEN],
            bay_num: info.bay_num,
            features: info.features,
            is_input: info.is_input,
            is_output: info.is_output,
            is_audio: info.is_audio,
            has_dolby: info.has_dolby,
            is_local: info.is_local,
            video_source: bay_or_zero(info.video_source),
            audio_source: bay_or_zero(info.audio_source),
            power_status: mxr_power_status_t::from(info.power_status),
            hidden: mxr_tribool_t::from_option(info.hidden),
            faulty: mxr_tribool_t::from_option(info.faulty),
            poe_powered: mxr_tribool_t::from_option(info.poe_powered),
            hdbt_connected: mxr_tribool_t::from_option(info.hdbt_connected),
            signal_detected: mxr_tribool_t::from_option(info.signal_detected),
            hpd_detected: mxr_tribool_t::from_option(info.hpd_detected),
            cec_detected: mxr_tribool_t::from_option(info.cec_detected),
            encoder_disabled: mxr_tribool_t::from_option(info.encoder_disabled),
            decoder_disabled: mxr_tribool_t::from_option(info.decoder_disabled),
            signal_type: [0u8; MXR_SIGNAL_TYPE_LEN],
            signal_mode: info.signal_mode.0,
            arc: mxr_arc_status_t::from(info.arc),
            has_volume: info.volume.is_some(),
            volume,
            muted: mxr_tribool_t::from_option(muted),
            has_rc_type: info.rc_type.is_some(),
            rc_type: match info.rc_type {
                Some(t) => t.0,
                None => 0,
            },
            has_edid_profile: info.edid_profile.is_some(),
            edid_profile: match info.edid_profile {
                Some(p) => p.0,
                None => 0,
            },
            mirror: bay_or_zero(info.mirror.target),
            audio_endpoint: match info.audio_endpoint {
                Some(e) => e as i16,
                None => -1,
            },
            linked_bay: bay_or_zero(info.linked_bay),
            v2ip_uid: mxr_uid_t::from_uid(info.v2ip_uid),
            filtered_count: info.filtered.len(),
        };
        put_str(&mut out.port_name, info.port_name.as_str());
        put_str(&mut out.user_name, info.user_name.as_str());
        let signal_type = match &info.signal_type {
            Some(t) => t.clone(),
            None => String::new(),
        };
        put_str(&mut out.signal_type, signal_type.as_str());
        out
    }
}

/// What a device is, and what it is doing, as C reads it.
#[derive(Clone, Copy, Debug, PartialEq, Eq)]
pub struct mxr_device_info_t {
    pub uid: mxr_uid_t,
    pub name: [u8; MXR_NAME_LEN],
    pub serial: [u8; MXR_SERIAL_LEN],
    pub model: [u8; MXR_MODEL_LEN],
    pub version: [u8; MXR_VERSION_LEN],
    pub supported_protocol: u16,
    pub features: u32,
    /// The address last heard from, empty when never.
    pub address: [u8; MXR_IP_STRING_LEN],
    pub status: mxr_device_status_t,
    pub online: bool,
    pub configuration_complete: bool,
    pub config_initialised: bool,
    pub mesh_master: mxr_uid_t,
    pub hdbt_outputs: u8,
    pub setup_done: mxr_tribool_t,
    /// The installer identifier, or -1 when the device has not reported one.
    pub installer_id: i32,
    pub has_system_status: bool,
    /// The status code; meaningful only when `has_system_status` is set.
    pub system_status: u16,
    /// The status message, empty when there is none.
    pub system_message: [u8; MXR_MESSAGE_LEN],
    pub temperature_count: usize,
    pub bay_count: usize,
}

/// The message a status field shows: empty when there is none.
pub open spec fn status_message(s: Option<(u16, String)>) -> Seq<char> {
    match s {
        Some((_, m)) => m@,
        None => Seq::empty(),
    }
}

impl mxr_device_info_t {
    /// Copies a device snapshot into the C shape.
    pub fn of(info: &DeviceInfo) -> (r: mxr_device_info_t)
        ensures
            r.uid.bytes == info.uid.bytes,
            r.name@ == fitted(encode_utf8(info.name@), MXR_NAME_LEN as int),
            r.serial@ == fitted(encode_utf8(info.serial@), MXR_SERIAL_LEN as int),
            r.model@ == fitted(encode_utf8(info.model@), MXR_MODEL_LEN as int),
            r.version@ == fitted(encode_utf8(info.version@), MXR_VERSION_LEN as int),
            r.supported_protocol == info.supported_protocol,
            r.features == info.features,
            r.address@ == fitted(
                encode_utf8(ip_field_text(info.address)),
                MXR_IP_STRING_LEN as int,
            ),
            r.status == c_device_status(info.status),
            r.online == info.online,
            r.configuration_complete == info.configuration_complete,
            r.config_initialised == info.config_initialised,
            r.mesh_master.bytes == info.mesh_master.bytes,
            r.hdbt_outputs == info.hdbt_outputs,
            r.setup_done == mxr_tribool_t::spec_from(info.setup_done),
            r.installer_id == match info.installer_id {
                Some(i) => i as i32,
                None => -1i32,
            },
            r.has_system_status == info.system_status is Some,
            r.system_status == match info.system_status {
                Some((c, _)) => c,
                None => 0,
            },
            r.system_message@ == fitted(
                encode_utf8(status_message(info.system_status)),
                MXR_MESSAGE_LEN as int,
            ),
            r.temperature_count == info.temperatures@.len(),
            r.bay_count == info.bays@.len(),
    {
        let mut out = mxr_device_info_t {
            uid: mxr_uid_t::from_uid(info.uid),
            name: [0u8; MXR_NAME_LEN],
            serial: [0u8; MXR_SERIAL_LEN],
            model: [0u8; MXR_MODEL_LEN],
            version: [0u8; MXR_VERSION_LEN],
            supported_protocol: info.supported_protocol,
            features: info.features,
            address: [0u8; MXR_IP_STRING_LEN],
            status: mxr_device_status_t::from(info.status),
            online: info.online,
            configuration_complete: info.configuration_complete,
            config_initialised: info.config_initialised,
            mesh_master: mxr_uid_t::from_uid(info.mesh_master),
            hdbt_outputs: info.hdbt_outputs,
            setup_done: mxr_tribool_t::from_option(info.setup_done),
            installer_id: match info.installer_id {
                Some(i) => i as i32,
                None => -1,
            },
            has_system_status: info.system_status.is_some(),
            system_status: match &info.system_status {
                Some((c, _)) => *c,
                None => 0,
            },
            system_message: [0u8; MXR_MESSAGE_LEN],
            temperature_count: info.temperatures.len(),
            bay_count: info.bays.len(),
        };
        put_str(&mut out.name, info.name.as_str());
        put_str(&mut out.serial, info.serial.as_str());
        put_str(&mut out.model, info.model.as_str());
        put_str(&mut out.version, info.version.as_str());
        put_ip(&mut out.address, info.address);
        let message = match &info.system_status {
            Some((_, m)) => m.clone(),
            None => String::new(),
        };
        put_str(&mut out.system_message, message.as_str());
        out
    }
}

/// How many UTP pairs a port reports diagnostics for.
pub const MXR_UTP_PAIRS: usize = 4;

/// How many inputs a multiviewer has.
pub const MXR_MULTIVIEWER_INPUTS: usize = 4;

/// The link state and diagnostics of one network port, as C reads them.
#[derive(Clone, Copy, Debug, PartialEq, Eq)]
pub struct mxr_network_port_t {
    pub port: u16,
    pub name: [u8; MXR_NAME_LEN],
    pub link_speed: u8,
    pub link_full_duplex: bool,
    /// The port's own address, empty when it has not reported one.
    pub ip: [u8; MXR_IP_STRING_LEN],
    /// The IGMP querier the port sees, empty when it sees none.
    pub querier: [u8; MXR_IP_STRING_LEN],
    pub has_mac_address: bool,
    /// Meaningful only when `has_mac_address` is set.
    pub mac_address: [u8; 6],
    pub has_errors: bool,
    pub in_error: bool,
    pub in_fcs_error: bool,
    pub in_collision: bool,
    pub out_deferred: bool,
    pub out_excessive: bool,
    pub polarity_error: bool,
    pub skew_warning: bool,
    pub length_warning: bool,
    pub has_vct_status: bool,
    /// Whether each pair raised a warning; meaningful only when
    /// `has_vct_status` is set.
    pub vct_warning: [bool; MXR_UTP_PAIRS],
    /// How many entries of `cable_status` the port filled in.
    pub cable_status_count: usize,
    pub cable_status: [mxr_cable_status_t; MXR_UTP_PAIRS],
}

/// The errors a port reports, all clear when it reported none.
pub open spec fn errors_or_clear(e: Option<PortErrors>) -> PortErrors {
    match e {
        Some(x) => x,
        None => PortErrors {
            in_error: false,
            in_fcs_error: false,
            in_collision: false,
            out_deferred: false,
            out_excessive: false,
            polarity_error: false,
            skew_warning: false,
            length_warning: false,
        },
    }
}

/// The C shape of one cable pair's diagnostics.
pub open spec fn c_cable(c: UtpCableStatus) -> mxr_cable_status_t {
    mxr_cable_status_t { polarity: c.polarity, pair: c.pair, skew: c.skew, length: c.length }
}

/// Which pairs a cable test warned about, none when no test was run.
fn vct_warnings(v: Option<[VctStatus; 4]>) -> (w: [bool; MXR_UTP_PAIRS])
    ensures
        forall|k: int|
            0 <= k < MXR_UTP_PAIRS ==> w[k] == match v {
                Some(s) => s[k] == VctStatus::Warning,
                None => false,
            },
{
    let mut w = [false; MXR_UTP_PAIRS];
    if let Some(s) = v {
        let mut k: usize = 0;
        while k < MXR_UTP_PAIRS
            invariant
                k <= MXR_UTP_PAIRS,
                forall|m: int| 0 <= m < k ==> w[m] == (s[m] == VctStatus::Warning),
            decreases MXR_UTP_PAIRS - k,
        {
            w[k] = s[k] == VctStatus::Warning;
            k = k + 1;
        }
    }
    w
}

/// The first pairs' diagnostics in the C shape, the rest blank.
fn cable_statuses(c: &[UtpCableStatus]) -> (out: [mxr_cable_status_t; MXR_UTP_PAIRS])
    ensures
        forall|k: int|
            0 <= k < MXR_UTP_PAIRS ==> out[k] == if k < c@.len() {
                c_cable(c@[k])
            } else {
                mxr_cable_status_t { polarity: false, pair: 0, skew: 0, length: 0 }
            },
{
    let blank = mxr_cable_status_t { polarity: false, pair: 0, skew: 0, length: 0 };
    let mut out = [blank; MXR_UTP_PAIRS];
    let mut k: usize = 0;
    while k < MXR_UTP_PAIRS
        invariant
            k <= MXR_UTP_PAIRS,
            forall|m: int|
                0 <= m < k ==> out[m] == if m < c@.len() {
                    c_cable(c@[m])
                } else {
                    blank
                },
            forall|m: int| k <= m < MXR_UTP_PAIRS ==> out[m] == blank,
        decreases MXR_UTP_PAIRS - k,
    {
        if k < c.len() {
            let x = c[k];
            out[k] = mxr_cable_status_t {
                polarity: x.polarity,
                pair: x.pair,
                skew: x.skew,
                length: x.length,
            };
        }
        k = k + 1;
    }
    out
}

/// Copies one port report into the C shape.
pub fn port_of(p: &NetworkPortStatus) -> (r: mxr_network_port_t)
    ensures
        r.port == p.port,
        r.name@ == fitted(encode_utf8(p.name@), MXR_NAME_LEN as int),
        r.link_speed == p.link_speed.0,
        r.link_full_duplex == p.link_full_duplex,
        r.ip@ == fitted(encode_utf8(ip_field_text(p.ip)), MXR_IP_STRING_LEN as int),
        r.querier@ == fitted(encode_utf8(ip_field_text(p.querier)), MXR_IP_STRING_LEN as int),
        r.has_mac_address == p.mac_address is Some,
        forall|k: int|
            0 <= k < 6 ==> r.mac_address[k] == match p.mac_address {
                Some(m) => m[k],
                None => 0u8,
            },
        r.has_errors == p.errors is Some,
        r.in_error == errors_or_clear(p.errors).in_error,
        r.in_fcs_error == errors_or_clear(p.errors).in_fcs_error,
        r.in_collision == errors_or_clear(p.errors).in_collision,
        r.out_deferred == errors_or_clear(p.errors).out_deferred,
        r.out_excessive == errors_or_clear(p.errors).out_excessive,
        r.polarity_error == errors_or_clear(p.errors).polarity_error,
        r.skew_warning == errors_or_clear(p.errors).skew_warning,
        r.length_warning == errors_or_clear(p.errors).length_warning,
        r.has_vct_status == p.vct_status is Some,
        forall|k: int|
            0 <= k < MXR_UTP_PAIRS ==> r.vct_warning[k] == match p.vct_status {
                Some(v) => v[k] == VctStatus::Warning,
                None => false,
            },
        r.cable_status_count == if p.cable_status@.len() < MXR_UTP_PAIRS {
            p.cable_status@.len() as int
        } else {
            MXR_UTP_PAIRS as int
        },
        forall|k: int|
            0 <= k < MXR_UTP_PAIRS ==> r.cable_status[k] == if k < p.cable_status@.len() {
                c_cable(p.cable_status@[k])
            } else {
                mxr_cable_status_t { polarity: false, pair: 0, skew: 0, length: 0 }
            },
{
    let errors = match p.errors {
        Some(e) => e,
        None => PortErrors {
            in_error: false,
            in_fcs_error: false,
            in_collision: false,
            out_deferred: false,
            out_excessive: false,
            polarity_error: false,
            skew_warning: false,
            length_warning: false,
        },
    };
    let n = p.cable_status.len();
    let mut out = mxr_network_port_t {
        port: p.port,
        name: [0u8; MXR_NAME_LEN],
        link_speed: p.link_speed.0,
        link_full_duplex: p.link_full_duplex,
        ip: [0u8; MXR_IP_STRING_LEN],
        querier: [0u8; MXR_IP_STRING_LEN],
        has_mac_address: p.mac_address.is_some(),
        mac_address: match p.mac_address {
            Some(m) => m,
            None => [0u8; 6],
        },
        has_errors: p.errors.is_some(),
        in_error: errors.in_error,
        in_fcs_error: errors.in_fcs_error,
        in_collision: errors.in_collision,
        out_deferred: errors.out_deferred,
        out_excessive: errors.out_excessive,
        polarity_error: errors.polarity_error,
        skew_warning: errors.skew_warning,
        length_warning: errors.length_warning,
        has_vct_status: p.vct_status.is_some(),
        vct_warning: vct_warnings(p.vct_status),
        cable_status_count: if n < MXR_UTP_PAIRS {
            n
        } else {
            MXR_UTP_PAIRS
        },
        cable_status: cable_statuses(p.cable_status.as_slice()),
    };
    put_str(&mut out.name, p.name.as_str());
    put_ip(&mut out.ip, p.ip);
    put_ip(&mut out.querier, p.querier);
    out
}

/// What a multiviewer reports about itself, as C reads it.
#[derive(Clone, Copy, Debug, PartialEq, Eq)]
pub struct mxr_multiviewer_status_t {
    pub uid: mxr_uid_t,
    pub mappings: [mxr_uid_t; MXR_MULTIVIEWER_INPUTS],
    pub mcu_version: [u8; MXR_NAME_LEN],
    pub scaler_version: [u8; MXR_NAME_LEN],
    pub hw_view_mode: u8,
    pub view_mode: u8,
    pub pip_position: u8,
    pub pip_size: u8,
    pub output_mode: u8,
    pub hdcp_mode: u8,
    pub output_itc: u8,
    pub edid_template: u8,
    pub aspect_ratio: u8,
    pub auto_switch: u8,
    pub audio_source: u8,
    pub has_audio_volume: bool,
    pub audio_volume: u8,
    pub audio_muted: u8,
    pub video_sources: [u8; MXR_MULTIVIEWER_INPUTS],
    pub remote_control: u8,
}

/// Copies a multiviewer's report into the C shape.
pub fn multiviewer_of(s: &MultiviewerStatus) -> (r: mxr_multiviewer_status_t)
    ensures
        r.uid.bytes == s.uid.bytes,
        forall|k: int|
            0 <= k < MXR_MULTIVIEWER_INPUTS ==> r.mappings[k].bytes == s.mappings[k].bytes,
        r.mcu_version@ == fitted(encode_utf8(s.mcu_version@), MXR_NAME_LEN as int),
        r.scaler_version@ == fitted(encode_utf8(s.scaler_version@), MXR_NAME_LEN as int),
        r.hw_view_mode == s.hw_view_mode,
        r.view_mode == s.view_mode.0,
        r.pip_position == s.pip_position.0,
        r.pip_size == s.pip_size.0,
        r.output_mode == s.output_mode.0,
        r.hdcp_mode == s.hdcp_mode.0,
        r.output_itc == s.output_itc.0,
        r.edid_template == s.edid_template.0,
        r.aspect_ratio == s.aspect_ratio.0,
        r.auto_switch == s.auto_switch.0,
        r.audio_source == s.audio_source.0,
        r.has_audio_volume == s.audio_volume is Some,
        r.audio_volume == match s.audio_volume {
            Some(v) => v,
            None => 0,
        },
        r.audio_muted == s.audio_muted.0,
        forall|k: int|
            0 <= k < MXR_MULTIVIEWER_INPUTS ==> r.video_sources[k] == s.video_sources[k].0,
        r.remote_control == s.remote_control.0,
{
    let zero = mxr_uid_t { bytes: [0u8; 16] };
    let mut out = mxr_multiviewer_status_t {
        uid: mxr_uid_t::from_uid(s.uid),
        mappings: [zero; MXR_MULTIVIEWER_INPUTS],
        mcu_version: [0u8; MXR_NAME_LEN],
        scaler_version: [0u8; MXR_NAME_LEN],
        hw_view_mode: s.hw_view_mode,
        view_mode: s.view_mode.0,
        pip_position: s.pip_position.0,
        pip_size: s.pip_size.0,
        output_mode: s.output_mode.0,
        hdcp_mode: s.hdcp_mode.0,
        output_itc: s.output_itc.0,
        edid_template: s.edid_template.0,
        aspect_ratio: s.aspect_ratio.0,
        auto_switch: s.auto_switch.0,
        audio_source: s.audio_source.0,
        has_audio_volume: s.audio_volume.is_some(),
        audio_volume: match s.audio_volume {
            Some(v) => v,
            None => 0,
        },
        audio_muted: s.audio_muted.0,
        video_sources: [0u8; MXR_MULTIVIEWER_INPUTS],
        remote_control: s.remote_control.0,
    };
    let mut k: usize = 0;
    while k < MXR_MULTIVIEWER_INPUTS
        invariant
            k <= MXR_MULTIVIEWER_INPUTS,
            forall|m: int| 0 <= m < k ==> out.mappings[m].bytes == s.mappings[m].bytes,
            forall|m: int| 0 <= m < k ==> out.video_sources[m] == s.video_sources[m].0,
            out.uid.bytes == s.uid.bytes,
            out.hw_view_mode == s.hw_view_mode,
            out.view_mode == s.view_mode.0,
            out.pip_position == s.pip_position.0,
            out.pip_size == s.pip_size.0,
            out.output_mode == s.output_mode.0,
            out.hdcp_mode == s.hdcp_mode.0,
            out.output_itc == s.output_itc.0,
            out.edid_template == s.edid_template.0,
            out.aspect_ratio == s.aspect_ratio.0,
            out.auto_switch == s.auto_switch.0,
            out.audio_source == s.audio_source.0,
            out.has_audio_volume == s.audio_volume is Some,
            out.audio_volume == match s.audio_volume {
                Some(v) => v,
                None => 0,
            },
            out.audio_muted == s.audio_muted.0,
            out.remote_control == s.remote_control.0,
        decreases MXR_MULTIVIEWER_INPUTS - k,
    {
        out.mappings[k] = mxr_uid_t::from_uid(s.mappings[k]);
        out.video_sources[k] = s.video_sources[k].0;
        k = k + 1;
    }
    put_str(&mut out.mcu_version, s.mcu_version.as_str());
    put_str(&mut out.scaler_version, s.scaler_version.as_str());
    out
}

/// One node of a device's audio tree, as C reads it.
#[derive(Clone, Copy, Debug, PartialEq, Eq)]
pub struct mxr_audio_endpoint_t {
    pub id: u8,
    pub features: u32,
    pub has_address: bool,
    /// Meaningful only when `has_address` is set.
    pub address: mxr_stream_source_t,
    /// The endpoint this one hangs off, or -1 at a root.
    pub parent: i16,
    pub child_count: usize,
    pub has_inputs_available: bool,
    pub inputs_available: u32,
    pub has_inputs_routed: bool,
    pub inputs_routed: u32,
    /// The device at the other end of the link, zero when unlinked.
    pub linked_device: mxr_uid_t,
    /// The endpoint at the other end of the link, or -1 when unlinked.
    pub linked_endpoint: i16,
}

impl mxr_audio_endpoint_t {
    /// Copies one endpoint into the C shape.
    pub fn of(e: &AudioEndpoint) -> (r: mxr_audio_endpoint_t)
        ensures
            r.id == e.id,
            r.features == e.features,
            r.has_address == e.address is Some,
            e.address matches Some(a) ==> c_stream(r.address, a),
            r.parent == match e.parent {
                Some(p) => p as i16,
                None => -1i16,
            },
            r.child_count == e.children@.len(),
            r.has_inputs_available == e.inputs_available is Some,
            r.inputs_available == match e.inputs_available {
                Some(m) => m,
                None => 0u32,
            },
            r.has_inputs_routed == e.inputs_routed is Some,
            r.inputs_routed == match e.inputs_routed {
                Some(m) => m,
                None => 0u32,
            },
            r.linked_device.bytes == e.linked_device.bytes,
            r.linked_endpoint == match e.linked_endpoint {
                Some(p) => p as i16,
                None => -1i16,
            },
    {
        let address = match e.address {
            Some(a) => a,
            None => V2ipStreamSource {
                kind: StreamKind::Video,
                ip: Ipv4 { a: 0, b: 0, c: 0, d: 0 },
                port: 0,
            },
        };
        mxr_audio_endpoint_t {
            id: e.id,
            features: e.features,
            has_address: e.address.is_some(),
            address: mxr_stream_source_t::of(address),
            parent: match e.parent {
                Some(p) => p as i16,
                None => -1,
            },
            child_count: e.children.len(),
            has_inputs_available: e.inputs_available.is_some(),
            inputs_available: match e.inputs_available {
                Some(m) => m,
                None => 0,
            },
            has_inputs_routed: e.inputs_routed.is_some(),
            inputs_routed: match e.inputs_routed {
                Some(m) => m,
                None => 0,
            },
            linked_device: mxr_uid_t::from_uid(e.linked_device),
            linked_endpoint: match e.linked_endpoint {
                Some(p) => p as i16,
                None => -1,
            },
        }
    }
}

/// Reports a subsystem read that found nothing: a device never heard from,
/// or one that has not sent what was asked for.
pub fn not_reported(slot: &mut LastError, heard: bool, uid: mxr_uid_t, what: &str) -> (r: mxr_result_t)
    ensures
        !heard ==> r == mxr_result_t::MXR_ERR_NOT_FOUND && final(slot).text@ == recorded_text(
            "no device "@ + uid_text(uid.bytes@),
        ),
        heard ==> r == mxr_result_t::MXR_ERR_NOT_REPORTED && final(slot).text@ == recorded_text(
            "the device has reported no "@ + what@,
        ),
{
    if !heard {
        return not_heard_from(slot, uid);
    }
    let mut m = String::from_str("the device has reported no ");
    proof {
        reveal_strlit("the device has reported no ");
    }
    m.append(what);
    fail(slot, mxr_result_t::MXR_ERR_NOT_REPORTED, m.as_str())
}

/// Reports an audio endpoint a device does not have.
pub fn no_endpoint(slot: &mut LastError, endpoint: u8) -> (r: mxr_result_t)
    ensures
        r == mxr_result_t::MXR_ERR_NOT_FOUND,
        final(slot).text@ == recorded_text(
            "the device has no audio endpoint "@ + decimal_text(endpoint as nat),
        ),
{
    let mut m = String::from_str("the device has no audio endpoint ");
    proof {
        reveal_strlit("the device has no audio endpoint ");
    }
    push_decimal(&mut m, endpoint as u64);
    fail(slot, mxr_result_t::MXR_ERR_NOT_FOUND, m.as_str())
}

/// The C shape of raw-IR metadata.
pub open spec fn c_ir_meta(m: IrMeta) -> mxr_ir_meta_t {
    mxr_ir_meta_t {
        timer_resolution: m.timer_resolution,
        frequency: m.frequency,
        nb_timings: m.nb_timings,
        repeat_offset: m.repeat_offset,
        status: m.status,
    }
}

/// One EDID block from a device's reply; the data is borrowed for the call
/// that hands it over.
#[derive(Clone, Copy, Debug)]
pub struct mxr_edid_record_t<'a> {
    /// True for a sink's EDID, false for a source's.
    pub output: bool,
    pub data: &'a [u8],
}

impl<'a> mxr_edid_record_t<'a> {
    /// The C shape of a reply, borrowing its data.
    pub fn of(e: &'a EdidRecord) -> (r: mxr_edid_record_t<'a>)
        ensures
            r.output == e.output,
            r.data@ == e.data@,
    {
        mxr_edid_record_t { output: e.output, data: e.data.as_slice() }
    }
}

/// Asks a device, addressed by serial, to switch a sink; the serial is
/// borrowed for the call.
#[derive(Clone, Copy, Debug)]
pub struct mxr_set_route_request_t<'a> {
    pub serial: &'a str,
    pub sink_bay: u16,
    pub source_bay: u16,
    pub no_power_on: bool,
    pub audio_only: bool,
}

impl<'a> mxr_set_route_request_t<'a> {
    /// The C shape of a request, borrowing its serial.
    pub fn of(q: &'a SetRouteRequest) -> (r: mxr_set_route_request_t<'a>)
        ensures
            r.serial@ == q.serial@,
            r.sink_bay == q.sink_bay,
            r.source_bay == q.source_bay,
            r.no_power_on == q.no_power_on,
            r.audio_only == q.audio_only,
    {
        mxr_set_route_request_t {
            serial: q.serial.as_str(),
            sink_bay: q.sink_bay,
            source_bay: q.source_bay,
            no_power_on: q.no_power_on,
            audio_only: q.audio_only,
        }
    }
}

/// Asks a device to rename one of its bays; the name is borrowed for the
/// call.
#[derive(Clone, Copy, Debug)]
pub struct mxr_bay_name_change_t<'a> {
    pub target: mxr_uid_t,
    pub port: u16,
    pub name: &'a str,
}

impl<'a> mxr_bay_name_change_t<'a> {
    /// The C shape of a rename, borrowing the new name.
    pub fn of(c: &'a BayNameChange) -> (r: mxr_bay_name_change_t<'a>)
        ensures
            r.target.bytes == c.target.bytes,
            r.port == c.port,
            r.name@ == c.name@,
    {
        mxr_bay_name_change_t {
            target: mxr_uid_t::from_uid(c.target),
            port: c.port,
            name: c.name.as_str(),
        }
    }
}

/// Raw IR captured on a bay of the sending device; the timings are borrowed
/// for the call.
#[derive(Clone, Copy, Debug)]
pub struct mxr_ir_capture_t<'a> {
    pub timestamp: u32,
    pub last_change: u32,
    pub meta: mxr_ir_meta_t,
    pub timings: &'a [u8],
}

impl<'a> mxr_ir_capture_t<'a> {
    /// The C shape of a capture, borrowing its timings.
    pub fn of(c: &'a IrCapture) -> (r: mxr_ir_capture_t<'a>)
        ensures
            r.timestamp == c.timestamp,
            r.last_change == c.last_change,
            r.meta == c_ir_meta(c.meta),
            r.timings@ == c.timings@,
    {
        mxr_ir_capture_t {
            timestamp: c.timestamp,
            last_change: c.last_change,
            meta: mxr_ir_meta_t::from(c.meta),
            timings: c.timings.as_slice(),
        }
    }
}

/// Asks one device to blast raw IR on one of its local bays; the timings are
/// borrowed for the call.
#[derive(Clone, Copy, Debug)]
pub struct mxr_ir_transmit_request_t<'a> {
    pub target: mxr_uid_t,
    /// Bay mode in the target's own numbering.
    pub local_mode: u8,
    /// Bay number in the target's own numbering.
    pub local_bay: u8,
    pub timestamp: u32,
    pub meta: mxr_ir_meta_t,
    pub timings: &'a [u8],
}

impl<'a> mxr_ir_transmit_request_t<'a> {
    /// The C shape of a request, borrowing its timings.
    pub fn of(q: &'a IrTransmitRequest) -> (r: mxr_ir_transmit_request_t<'a>)
        ensures
            r.target.bytes == q.target.bytes,
            r.local_mode == q.local_mode,
            r.local_bay == q.local_bay,
            r.timestamp == q.timestamp,
            r.meta == c_ir_meta(q.meta),
            r.timings@ == q.timings@,
    {
        mxr_ir_transmit_request_t {
            target: mxr_uid_t::from_uid(q.target),
            local_mode: q.local_mode,
            local_bay: q.local_bay,
            timestamp: q.timestamp,
            meta: mxr_ir_meta_t::from(q.meta),
            timings: q.timings.as_slice(),
        }
    }
}

/// A command addressed to a multiviewer; the parameters are borrowed for the
/// call.
#[derive(Clone, Copy, Debug)]
pub struct mxr_multiviewer_command_t<'a> {
    pub target: mxr_uid_t,
    /// The sub-opcode; a value this library has no name for still arrives.
    pub op: u8,
    pub params: &'a [u8],
}

impl<'a> mxr_multiviewer_command_t<'a> {
    /// The C shape of a command, borrowing its parameters.
    pub fn of(c: &'a MultiviewerCommand) -> (r: mxr_multiviewer_command_t<'a>)
        ensures
            r.target.bytes == c.target.bytes,
            r.op == c.op,
            r.params@ == c.params@,
    {
        mxr_multiviewer_command_t {
            target: mxr_uid_t::from_uid(c.target),
            op: c.op,
            params: c.params.as_slice(),
        }
    }
}

/// A source bay's remote-control configuration, as C reads it.
#[derive(Clone, Copy, Debug, PartialEq, Eq)]
pub struct mxr_rc_settings_t {
    pub target: mxr_uid_t,
    pub rc_target: u8,
    /// The control target's address, empty when unset.
    pub ip: [u8; MXR_IP_STRING_LEN],
    pub cec_enabled: bool,
    pub cec_auto_on: bool,
    pub forward_rc: bool,
    pub forward_ir: bool,
    pub rc_status: u8,
    pub status_name: [u8; MXR_NAME_LEN],
}

/// Copies remote-control settings into the C shape.
pub fn rc_settings_of(s: &RcSettings) -> (r: mxr_rc_settings_t)
    ensures
        r.target.bytes == s.target.bytes,
        r.rc_target == s.rc_target,
        r.ip@ == fitted(encode_utf8(ip_field_text(s.ip)), MXR_IP_STRING_LEN as int),
        r.cec_enabled == s.cec_enabled,
        r.cec_auto_on == s.cec_auto_on,
        r.forward_rc == s.forward_rc,
        r.forward_ir == s.forward_ir,
        r.rc_status == s.rc_status,
        r.status_name@ == fitted(encode_utf8(s.status_name@), MXR_NAME_LEN as int),
{
    let mut out = mxr_rc_settings_t {
        target: mxr_uid_t::from_uid(s.target),
        rc_target: s.rc_target,
        ip: [0u8; MXR_IP_STRING_LEN],
        cec_enabled: s.cec_enabled,
        cec_auto_on: s.cec_auto_on,
        forward_rc: s.forward_rc,
        forward_ir: s.forward_ir,
        rc_status: s.rc_status,
        status_name: [0u8; MXR_NAME_LEN],
    };
    put_ip(&mut out.ip, s.ip);
    put_str(&mut out.status_name, s.status_name.as_str());
    out
}

/// One firmware component a device reports, as C reads it.
#[derive(Clone, Copy, Debug, PartialEq, Eq)]
pub struct mxr_firmware_version_t {
    pub firmware_type: u8,
    pub timestamp: u32,
    pub hash: u32,
    pub version: [u8; MXR_VERSION_LEN],
}

/// Copies one firmware report into the C shape.
pub fn firmware_of(v: &FirmwareVersion) -> (r: mxr_firmware_version_t)
    ensures
        r.firmware_type == v.firmware_type,
        r.timestamp == v.timestamp,
        r.hash == v.hash,
        r.version@ == fitted(encode_utf8(v.version@), MXR_VERSION_LEN as int),
{
    let mut out = mxr_firmware_version_t {
        firmware_type: v.firmware_type,
        timestamp: v.timestamp,
        hash: v.hash,
        version: [0u8; MXR_VERSION_LEN],
    };
    put_str(&mut out.version, v.version.as_str());
    out
}

/// Set when the frame carries a scaling mode and refresh rate.
pub const MXR_SCALING_FLAG_MODE_VALID: u8 = 1;

/// Set when the frame carries the scaling options.
pub const MXR_SCALING_FLAG_OPTIONS_VALID: u8 = 2;

/// Set when the output scales automatically.
pub const MXR_SCALING_FLAG_AUTO_SCALING: u8 = 128;

/// A V2IP device's own encoder configuration, as C reads it.
#[derive(Clone, Copy, Debug, PartialEq, Eq)]
pub struct mxr_v2ip_details_t {
    pub video: mxr_stream_source_t,
    pub audio: mxr_stream_source_t,
    pub anc: mxr_stream_source_t,
    pub arc: mxr_stream_source_t,
    /// Encoder rate in units of 10Mb/s, or -1 when none was reported.
    pub tx_rate: i16,
    /// DSCP markings, or -1 where unmarked.
    pub dscp_video: i16,
    pub dscp_audio: i16,
    pub dscp_anc: i16,
    pub scaling_mode: u16,
    pub scaling_refresh: u16,
    pub scaling_flags: u8,
}

/// A byte C reads with -1 for absence; a byte on the wire cannot collide with
/// it.
pub open spec fn byte_or_minus_one(v: Option<u8>) -> i16 {
    match v {
        Some(b) => b as i16,
        None => -1i16,
    }
}

fn minus_one_or(v: Option<u8>) -> (r: i16)
    ensures
        r == byte_or_minus_one(v),
{
    match v {
        Some(b) => b as i16,
        None => -1,
    }
}

/// Copies an encoder configuration into the C shape.
pub fn v2ip_details_of(d: &DeviceV2ipDetails) -> (r: mxr_v2ip_details_t)
    ensures
        c_stream(r.video, d.video),
        c_stream(r.audio, d.audio),
        c_stream(r.anc, d.anc),
        c_stream(r.arc, d.arc),
        r.tx_rate == byte_or_minus_one(d.tx_rate),
        r.dscp_video == byte_or_minus_one(d.dscp.video),
        r.dscp_audio == byte_or_minus_one(d.dscp.audio),
        r.dscp_anc == byte_or_minus_one(d.dscp.anc),
        r.scaling_mode == d.scaling.mode.0,
        r.scaling_refresh == d.scaling.refresh,
        r.scaling_flags == d.scaling.flags,
{
    mxr_v2ip_details_t {
        video: mxr_stream_source_t::of(d.video),
        audio: mxr_stream_source_t::of(d.audio),
        anc: mxr_stream_source_t::of(d.anc),
        arc: mxr_stream_source_t::of(d.arc),
        tx_rate: minus_one_or(d.tx_rate),
        dscp_video: minus_one_or(d.dscp.video),
        dscp_audio: minus_one_or(d.dscp.audio),
        dscp_anc: minus_one_or(d.dscp.anc),
        scaling_mode: d.scaling.mode.0,
        scaling_refresh: d.scaling.refresh,
        scaling_flags: d.scaling.flags,
    }
}

/// The streams a V2IP sink is subscribed to, as C reads them.
#[derive(Clone, Copy, Debug, PartialEq, Eq)]
pub struct mxr_v2ip_sink_t {
    pub addresses: mxr_stream_sources_t,
    pub has_audio_format: bool,
    /// Meaningful only when `has_audio_format` is set.
    pub audio_format: mxr_audio_format_t,
}

/// Copies a sink's subscription into the C shape.
pub fn v2ip_sink_of(s: &DeviceV2ipSink) -> (r: mxr_v2ip_sink_t)
    ensures
        c_sources(r.addresses, s.addresses),
        r.has_audio_format == s.audio_fmt is Some,
        s.audio_fmt matches Some(f) ==> r.audio_format.sample_rate == f.sample_rate
            && r.audio_format.channels == f.channels,
        s.audio_fmt is None ==> r.audio_format.sample_rate == 0 && r.audio_format.channels == 0,
{
    let (sample_rate, channels) = match s.audio_fmt {
        Some(f) => (f.sample_rate, f.channels),
        None => (0, 0),
    };
    mxr_v2ip_sink_t {
        addresses: mxr_stream_sources_t::of(s.addresses),
        has_audio_format: s.audio_fmt.is_some(),
        audio_format: mxr_audio_format_t { sample_rate, channels },
    }
}

} // verus!
