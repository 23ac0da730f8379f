use mx_remote::cabi::{mxr_bay_name_change_t, mxr_set_route_request_t};
use mx_remote::types::{BayNameChange, SetRouteRequest};
use mx_remote::ident::DeviceUid;
use mx_remote::info::{
    dolby_settings, edid, firmware, multiviewer_status, network_status, rc_settings, topology,
    v2ip_details, v2ip_sink, v2ip_sources, v2ip_stats, v2ip_tiling,
};
use mx_remote::net::Ipv4;
use mx_remote::registry::{Device, State};
use mx_remote::types::{
    AmpDolbySettings, FirmwareVersion, LinkSpeed, NetworkPortStatus, RcSettings, StreamKind,
    TopologyEntry, V2ipStreamSource, V2ipStreamSources, V2ipTilingConfig,
};

fn uid_n(n: u8) -> DeviceUid {
    let mut bytes = [0u8; 16];
    bytes[0] = n;
    bytes[15] = 0xa5;
    DeviceUid::from_array(bytes)
}

fn port(n: u16) -> NetworkPortStatus {
    NetworkPortStatus {
        port: n,
        name: format!("eth{n}"),
        link_speed: LinkSpeed(3),
        link_full_duplex: true,
        ip: None,
        querier: None,
        mac_address: None,
        errors: None,
        vct_status: None,
        cable_status: Vec::new(),
    }
}

fn registry() -> State {
    let mut state = State::new();
    let mut d = Device::new(uid_n(1), "Matrix".to_owned(), "MX0001".to_owned());
    d.tiling = Some(V2ipTilingConfig { target: uid_n(1), pos_x: 1, pos_y: 2, width: 3, height: 4 });
    d.dolby_settings = Some(AmpDolbySettings {
        mode: 2,
        pcm_upmix: true,
        dolby_detected: false,
        pcm_upmix_active: false,
    });
    d.rc_settings = Some(RcSettings {
        target: uid_n(1),
        rc_target: 0,
        ip: Some(Ipv4 { a: 10, b: 0, c: 0, d: 9 }),
        cec_enabled: true,
        cec_auto_on: false,
        forward_rc: true,
        forward_ir: false,
        rc_status: 1,
        status_name: "ready".to_owned(),
    });
    d.network = vec![port(1), port(2)];
    d.topology = vec![TopologyEntry { uid: uid_n(2), mask: 6 }];
    d.firmware = vec![FirmwareVersion {
        firmware_type: 1,
        timestamp: 1_700_000_000,
        hash: 0xdead_beef,
        version: "2.1.0".to_owned(),
    }];
    d.edid_output = Some(vec![0x00, 0xff, 0xff]);
    let at = |kind, last| V2ipStreamSource { kind, ip: Ipv4 { a: 239, b: 1, c: 1, d: last }, port: 5000 };
    d.v2ip_sources = Some(vec![V2ipStreamSources {
        uid: uid_n(1),
        video: at(StreamKind::Video, 1),
        audio: at(StreamKind::Audio, 2),
        anc: at(StreamKind::Anc, 3),
        arc: None,
    }]);
    state.devices.push(d);
    state.devices.push(Device::new(uid_n(2), "Quiet".to_owned(), "MX0002".to_owned()));
    state
}

#[test]
fn a_reported_subsystem_reads_back_as_reported() {
    let state = registry();
    let d = &state.devices[0];
    assert_eq!(v2ip_tiling(&state, uid_n(1)), d.tiling);
    assert_eq!(dolby_settings(&state, uid_n(1)).map(|s| s.mode), Some(2));
    assert_eq!(rc_settings(&state, uid_n(1)).map(|s| s.status_name.clone()), Some("ready".to_owned()));
    assert_eq!(network_status(&state, uid_n(1)).map(|p| p.len()), Some(2));
    assert_eq!(network_status(&state, uid_n(1)).unwrap()[1].name, "eth2");
    assert_eq!(topology(&state, uid_n(1)), vec![TopologyEntry { uid: uid_n(2), mask: 6 }]);
    assert_eq!(firmware(&state, uid_n(1)).unwrap()[0].version, "2.1.0");
    assert_eq!(edid(&state, uid_n(1), true), Some(vec![0x00, 0xff, 0xff]));
    assert_eq!(v2ip_sources(&state, uid_n(1)).map(|s| s.len()), Some(1));
}

#[test]
fn a_subsystem_not_yet_reported_reads_as_none() {
    let state = registry();
    assert_eq!(edid(&state, uid_n(1), false), None);
    assert_eq!(v2ip_stats(&state, uid_n(1)), None);
    assert_eq!(v2ip_details(&state, uid_n(1)), None);
    assert_eq!(v2ip_sink(&state, uid_n(1)), None);
    assert!(multiviewer_status(&state, uid_n(1)).is_none());
    assert_eq!(v2ip_tiling(&state, uid_n(2)), None);
    assert_eq!(v2ip_sources(&state, uid_n(2)), None);
    assert_eq!(network_status(&state, uid_n(2)).map(|p| p.len()), Some(0));
    assert_eq!(topology(&state, uid_n(2)), Vec::new());
}

#[test]
fn an_unknown_device_has_no_subsystems() {
    let state = registry();
    let stranger = uid_n(9);
    assert_eq!(v2ip_tiling(&state, stranger), None);
    assert_eq!(dolby_settings(&state, stranger), None);
    assert!(rc_settings(&state, stranger).is_none());
    assert!(network_status(&state, stranger).is_none());
    assert!(firmware(&state, stranger).is_none());
    assert_eq!(topology(&state, stranger), Vec::new());
    assert_eq!(edid(&state, stranger, true), None);
}

#[test]
fn a_route_request_and_a_rename_borrow_their_text() {
    let request = SetRouteRequest {
        serial: "MX0001".to_owned(),
        sink_bay: 9,
        source_bay: 2,
        no_power_on: true,
        audio_only: false,
    };
    let c = mxr_set_route_request_t::of(&request);
    assert_eq!(c.serial, "MX0001");
    assert_eq!((c.sink_bay, c.source_bay, c.no_power_on, c.audio_only), (9, 2, true, false));
    let change = BayNameChange { target: uid_n(3), port: 4, name: "Lounge".to_owned() };
    let c = mxr_bay_name_change_t::of(&change);
    assert_eq!(c.target.bytes, uid_n(3).bytes);
    assert_eq!(c.port, 4);
    assert_eq!(c.name, "Lounge");
}
