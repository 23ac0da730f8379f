use mx_remote::bits::{MXR_BAY_AUDIO_AMP_OUT, MXR_BAY_HDMI_IN, MXR_BAY_V2IP_SOURCE_LOCAL};
use mx_remote::cabi::{
    multiviewer_of, mxr_amp_zone_settings_t, mxr_bay_info_t, mxr_device_info_t,
    mxr_device_status_t, mxr_factory_reset_request_t, mxr_power_status_t, mxr_stream_sources_t,
    port_of,
};
use mx_remote::abi::mxr_tribool_t;
use mx_remote::cabi::{
    firmware_of, rc_settings_of, v2ip_details_of, v2ip_sink_of, mxr_edid_record_t, mxr_ir_capture_t, mxr_ir_transmit_request_t, mxr_multiviewer_command_t,
};
use mx_remote::types::{
    DeviceV2ipDetails, DeviceV2ipSink, DscpMarks, FirmwareVersion, MxrSignalType, RcSettings,
    ScalingSettings, V2ipAudioFormat,
};
use mx_remote::types::{EdidRecord, IrCapture, IrMeta, IrTransmitRequest, MultiviewerCommand};
use mx_remote::ident::{BayUid, DeviceUid};
use mx_remote::info::{bay, bay_by_name, bay_by_stream_ip, device, device_by_serial, devices, resolve_device};
use mx_remote::net::Ipv4;
use mx_remote::registry::{Bay, Device, State};
use mx_remote::types::{
    AmpZoneSettings, DeviceStatus, FactoryResetRequest, LinkSpeed, MultiviewerByte,
    MultiviewerStatus, NetworkPortStatus, PortErrors, PowerStatus, StreamKind, UtpCableStatus,
    V2ipStreamSource, V2ipStreamSources, VctStatus, VolumeMuteStatus,
};

fn uid_n(n: u8) -> DeviceUid {
    let mut bytes = [0u8; 16];
    bytes[0] = n;
    bytes[15] = 0xa5;
    DeviceUid::from_array(bytes)
}

fn field(bytes: &[u8]) -> String {
    let text: Vec<u8> = bytes.iter().take_while(|b| **b != 0).copied().collect();
    String::from_utf8_lossy(&text).into_owned()
}

fn source(uid: DeviceUid, last: u8) -> V2ipStreamSources {
    let at = |kind, d| V2ipStreamSource { kind, ip: Ipv4 { a: 239, b: 1, c: last, d }, port: 5000 };
    V2ipStreamSources {
        uid,
        video: at(StreamKind::Video, 1),
        audio: at(StreamKind::Audio, 2),
        anc: at(StreamKind::Anc, 3),
        arc: None,
    }
}

fn registry() -> State {
    let mut state = State::new();
    let a = uid_n(1);
    let mut d = Device::new(a, "Matrix".to_owned(), "MX0001".to_owned());
    d.status = DeviceStatus::Rebooting;
    d.address = Some(Ipv4 { a: 10, b: 0, c: 0, d: 7 });
    d.installer_id = Some(42);
    d.system_status = Some((3, "fan".to_owned()));
    d.temperatures = vec![40, 41];
    let mut input = Bay::new(1, 0, MXR_BAY_HDMI_IN | MXR_BAY_V2IP_SOURCE_LOCAL, "Input 1".to_owned());
    input.power_status = Some(PowerStatus::On);
    input.signal_type = Some("1080p60 444 8".to_owned());
    d.bays.push(input);
    let mut zone = Bay::new(5, 1, MXR_BAY_AUDIO_AMP_OUT, "Zone 1".to_owned());
    zone.user_name = Some("Kitchen".to_owned());
    zone.audio_volume = Some(VolumeMuteStatus::both(30, Some(true)));
    zone.audio_endpoint = Some(4);
    d.bays.push(zone);
    d.v2ip_sources = Some(vec![source(a, 7), source(a, 8)]);
    state.devices.push(d);
    state.devices.push(Device::new(uid_n(2), "Other".to_owned(), "MX0002".to_owned()));
    state
}

#[test]
fn a_device_is_found_by_identifier_or_by_serial() {
    let state = registry();
    assert_eq!(devices(&state), vec![uid_n(1), uid_n(2)]);
    assert_eq!(device_by_serial(&state, "MX0002"), Some(uid_n(2)));
    assert_eq!(device_by_serial(&state, "MX9999"), None);
    assert_eq!(resolve_device(&state, "00000001.00000000.00000000.a5000000"), Some(uid_n(1)));
    assert_eq!(resolve_device(&state, "MX0001"), Some(uid_n(1)));
    assert_eq!(resolve_device(&state, "00000009.00000000.00000000.a5000000"), None);
    let info = device(&state, uid_n(1)).expect("no device");
    assert_eq!(info.bays, vec![BayUid::new(uid_n(1), 1), BayUid::new(uid_n(1), 5)]);
    assert!(device(&state, uid_n(3)).is_none());
}

#[test]
fn a_bay_is_found_by_port_name_or_by_the_group_it_streams_to() {
    let state = registry();
    assert_eq!(bay_by_name(&state, uid_n(1), "Zone 1"), Some(BayUid::new(uid_n(1), 5)));
    assert_eq!(bay_by_name(&state, uid_n(1), "Kitchen"), None, "a user name is not a port name");
    assert_eq!(bay_by_name(&state, uid_n(2), "Zone 1"), None);
    assert_eq!(
        bay_by_stream_ip(&state, Ipv4 { a: 239, b: 1, c: 7, d: 1 }, false),
        Some(BayUid::new(uid_n(1), 1))
    );
    assert_eq!(
        bay_by_stream_ip(&state, Ipv4 { a: 239, b: 1, c: 8, d: 2 }, true),
        Some(BayUid::new(uid_n(1), 5))
    );
    assert_eq!(bay_by_stream_ip(&state, Ipv4 { a: 239, b: 1, c: 7, d: 1 }, true), None);
}

#[test]
fn a_bay_snapshot_reaches_c_as_it_was_reported() {
    let state = registry();
    let info = bay(&state, BayUid::new(uid_n(1), 5)).expect("no bay");
    assert_eq!(info.user_name, "Kitchen");
    let c = mxr_bay_info_t::of(&info);
    assert_eq!(field(&c.port_name), "Zone 1");
    assert_eq!(field(&c.user_name), "Kitchen");
    assert!(c.has_volume);
    assert_eq!(c.volume, 30);
    assert_eq!(c.muted, mxr_tribool_t::MXR_TRUE);
    assert_eq!(c.audio_endpoint, 4);
    assert_eq!(c.power_status, mxr_power_status_t::MXR_POWER_UNKNOWN);
    assert!(c.video_source.device.is_zero());

    let input = mxr_bay_info_t::of(&bay(&state, BayUid::new(uid_n(1), 1)).expect("no bay"));
    assert_eq!(field(&input.user_name), "Input 1", "the port name stands in for a user name");
    assert_eq!(field(&input.signal_type), "1080p60 444 8");
    assert_eq!(input.power_status, mxr_power_status_t::MXR_POWER_ON);
    assert!(!input.has_volume);
    assert_eq!(input.audio_endpoint, -1);
    assert_eq!(input.hidden, mxr_tribool_t::MXR_UNKNOWN);
}

#[test]
fn a_device_snapshot_reaches_c_as_it_was_reported() {
    let state = registry();
    let c = mxr_device_info_t::of(&device(&state, uid_n(1)).expect("no device"));
    assert_eq!(field(&c.name), "Matrix");
    assert_eq!(field(&c.serial), "MX0001");
    assert_eq!(field(&c.address), "10.0.0.7");
    assert_eq!(c.status, mxr_device_status_t::MXR_DEVICE_REBOOTING);
    assert_eq!(c.installer_id, 42);
    assert!(c.has_system_status);
    assert_eq!(c.system_status, 3);
    assert_eq!(field(&c.system_message), "fan");
    assert_eq!(c.temperature_count, 2);
    assert_eq!(c.bay_count, 2);

    let other = mxr_device_info_t::of(&device(&state, uid_n(2)).expect("no device"));
    assert_eq!(field(&other.address), "");
    assert_eq!(other.installer_id, -1);
    assert!(!other.has_system_status);
}

#[test]
fn amplifier_settings_survive_the_trip_to_c_and_back() {
    let s = AmpZoneSettings {
        gain_left: 1,
        gain_right: 2,
        volume_min: 3,
        volume_max: 4,
        delay_left: 5,
        delay_right: 6,
        bass: 7,
        treble: 8,
        bridged: 1,
        power_mode: 2,
        power_level: 9,
        power_timeout: 600,
        eq_left: [1, 2, 3, 4, 5],
        eq_right: [6, 7, 8, 9, 10],
    };
    let c = mxr_amp_zone_settings_t::from(s);
    assert_eq!(c.delay_right, 6);
    assert_eq!(c.eq_right, [6, 7, 8, 9, 10]);
    assert_eq!(AmpZoneSettings::from(c), s);
}

#[test]
fn a_request_that_addresses_nobody_carries_the_zero_identifier() {
    let all = mxr_factory_reset_request_t::from(FactoryResetRequest { all: true, target: None });
    assert!(all.all);
    assert!(all.target.is_zero());
    let one = mxr_factory_reset_request_t::from(FactoryResetRequest { all: false, target: Some(uid_n(5)) });
    assert_eq!(one.target.bytes, uid_n(5).bytes);
}

#[test]
fn stream_addresses_reach_c_as_dotted_quads() {
    let c = mxr_stream_sources_t::of(source(uid_n(1), 7));
    assert_eq!(field(&c.video.ip), "239.1.7.1");
    assert_eq!(field(&c.audio.ip), "239.1.7.2");
    assert!(c.video.valid);
    assert!(!c.has_arc);
}

#[test]
fn a_port_report_keeps_at_most_four_pairs() {
    let cable = |pair| UtpCableStatus { polarity: true, pair, skew: 1, length: 30 };
    let p = NetworkPortStatus {
        port: 2,
        name: "LAN".to_owned(),
        link_speed: LinkSpeed(3),
        link_full_duplex: true,
        ip: Some(Ipv4 { a: 10, b: 0, c: 0, d: 9 }),
        querier: None,
        mac_address: Some([1, 2, 3, 4, 5, 6]),
        errors: Some(PortErrors {
            in_error: true,
            in_fcs_error: false,
            in_collision: false,
            out_deferred: false,
            out_excessive: false,
            polarity_error: false,
            skew_warning: false,
            length_warning: true,
        }),
        vct_status: Some([VctStatus::Normal, VctStatus::Warning, VctStatus::Normal, VctStatus::Normal]),
        cable_status: vec![cable(0), cable(1), cable(2), cable(3), cable(4)],
    };
    let c = port_of(&p);
    assert_eq!(field(&c.name), "LAN");
    assert_eq!(field(&c.ip), "10.0.0.9");
    assert_eq!(field(&c.querier), "");
    assert_eq!(c.mac_address, [1, 2, 3, 4, 5, 6]);
    assert!(c.in_error && c.length_warning && !c.skew_warning);
    assert_eq!(c.vct_warning, [false, true, false, false]);
    assert_eq!(c.cable_status_count, 4);
    assert_eq!(c.cable_status[3].pair, 3);

    let bare = NetworkPortStatus { vct_status: None, cable_status: vec![cable(0)], errors: None, ..p };
    let c = port_of(&bare);
    assert_eq!(c.vct_warning, [false; 4]);
    assert_eq!(c.cable_status_count, 1);
    assert_eq!(c.cable_status[1].length, 0);
    assert!(!c.has_errors && !c.in_error);
}

#[test]
fn a_multiviewer_report_reaches_c_whole() {
    let s = MultiviewerStatus {
        uid: uid_n(1),
        mappings: [uid_n(2), uid_n(3), uid_n(4), uid_n(5)],
        mcu_version: "1.2".to_owned(),
        scaler_version: "3.4".to_owned(),
        hw_view_mode: 1,
        view_mode: MultiviewerByte(2),
        pip_position: MultiviewerByte(3),
        pip_size: MultiviewerByte(4),
        output_mode: MultiviewerByte(5),
        hdcp_mode: MultiviewerByte(6),
        output_itc: MultiviewerByte(7),
        edid_template: MultiviewerByte(8),
        aspect_ratio: MultiviewerByte(9),
        auto_switch: MultiviewerByte(10),
        audio_source: MultiviewerByte(11),
        audio_volume: None,
        audio_muted: MultiviewerByte(1),
        video_sources: [MultiviewerByte(1), MultiviewerByte(2), MultiviewerByte(3), MultiviewerByte(4)],
        remote_control: MultiviewerByte(12),
    };
    let c = multiviewer_of(&s);
    assert_eq!(c.mappings[3].bytes, uid_n(5).bytes);
    assert_eq!(c.video_sources, [1, 2, 3, 4]);
    assert_eq!(field(&c.scaler_version), "3.4");
    assert!(!c.has_audio_volume);
    assert_eq!(c.audio_volume, 0);
    assert_eq!(c.remote_control, 12);
}

#[test]
fn a_borrowed_blob_reaches_c_as_it_arrived() {
    let edid = EdidRecord { output: true, data: vec![0, 255, 255, 0] };
    let c = mxr_edid_record_t::of(&edid);
    assert!(c.output);
    assert_eq!(c.data, &[0, 255, 255, 0]);

    let meta = IrMeta { timer_resolution: 1, frequency: 38000, nb_timings: 2, repeat_offset: 0, status: 1 };
    let capture = IrCapture { timestamp: 5, last_change: 6, meta, timings: vec![9, 8] };
    let c = mxr_ir_capture_t::of(&capture);
    assert_eq!((c.timestamp, c.last_change, c.meta.frequency), (5, 6, 38000));
    assert_eq!(c.timings, &[9, 8]);

    let request = IrTransmitRequest { target: uid_n(4), local_mode: 1, local_bay: 2, timestamp: 3, meta, timings: vec![7] };
    let c = mxr_ir_transmit_request_t::of(&request);
    assert_eq!(c.target.bytes, uid_n(4).bytes);
    assert_eq!((c.local_mode, c.local_bay), (1, 2));
    assert_eq!(c.timings, &[7]);

    let command = MultiviewerCommand { target: uid_n(5), op: 9, params: vec![1, 2, 3] };
    let c = mxr_multiviewer_command_t::of(&command);
    assert_eq!(c.op, 9);
    assert_eq!(c.params, &[1, 2, 3]);
}

#[test]
fn subsystem_reports_reach_c_with_absence_spelled_out() {
    let rc = rc_settings_of(&RcSettings {
        target: uid_n(3),
        rc_target: 0,
        ip: None,
        cec_enabled: true,
        cec_auto_on: false,
        forward_rc: true,
        forward_ir: false,
        rc_status: 2,
        status_name: "ready".to_owned(),
    });
    assert_eq!(field(&rc.ip), "");
    assert_eq!(field(&rc.status_name), "ready");
    assert_eq!(rc.rc_status, 2);

    let fw = firmware_of(&FirmwareVersion { firmware_type: 1, timestamp: 99, hash: 7, version: "4.8.0".to_owned() });
    assert_eq!(field(&fw.version), "4.8.0");
    assert_eq!((fw.firmware_type, fw.timestamp, fw.hash), (1, 99, 7));

    let at = |d| V2ipStreamSource { kind: StreamKind::Video, ip: Ipv4 { a: 239, b: 0, c: 0, d }, port: 5000 };
    let details = v2ip_details_of(&DeviceV2ipDetails {
        video: at(1),
        audio: at(2),
        anc: at(3),
        arc: at(4),
        tx_rate: None,
        dscp: DscpMarks { video: Some(46), audio: None, anc: Some(0) },
        scaling: ScalingSettings { mode: MxrSignalType(16), refresh: 60, flags: 1 },
    });
    assert_eq!(details.tx_rate, -1);
    assert_eq!((details.dscp_video, details.dscp_audio, details.dscp_anc), (46, -1, 0));
    assert_eq!(field(&details.arc.ip), "239.0.0.4");
    assert_eq!(details.scaling_mode, 16);

    let sink = v2ip_sink_of(&DeviceV2ipSink {
        addresses: source(uid_n(1), 9),
        audio_fmt: Some(V2ipAudioFormat { sample_rate: 48000, channels: 2 }),
    });
    assert!(sink.has_audio_format);
    assert_eq!(sink.audio_format.sample_rate, 48000);
    assert_eq!(field(&sink.addresses.audio.ip), "239.1.9.2");
}

#[test]
fn a_device_is_resolved_by_serial_then_name_then_identifier() {
    let mut state = registry();
    assert_eq!(resolve_device(&state, "Matrix"), Some(uid_n(1)));
    assert_eq!(resolve_device(&state, "Other"), Some(uid_n(2)));
    assert_eq!(resolve_device(&state, "Kitchen"), None);
    // A name that is another device's serial finds the device with that serial.
    state.devices[1].name = "MX0001".to_owned();
    assert_eq!(resolve_device(&state, "MX0001"), Some(uid_n(1)));
    // A name that reads as another device's identifier finds the named device.
    state.devices[1].name = "00000001.00000000.00000000.a5000000".to_owned();
    assert_eq!(resolve_device(&state, "00000001.00000000.00000000.a5000000"), Some(uid_n(2)));
    // An identifier of no device heard from finds nothing.
    assert_eq!(resolve_device(&state, "00000009.00000000.00000000.a5000000"), None);
}
