use mx_remote::bits::{
    MXR_BAY_HDMI_IN, MXR_BAY_HDMI_OUT, MXR_BAY_V2IP_SINK_LOCAL, MXR_BAY_V2IP_SOURCE_LOCAL,
    MXR_FEATURE_MULTIVIEWER,
};
use mx_remote::control::{
    check_floor, complete, multiviewer_auto_route, reboot, request_edid, request_signal_status,
    select_audio_endpoint_input, select_audio_source, select_audio_source_by_name,
    select_video_source, select_video_source_by_name, send_key, send_monitoring_pulse,
    set_amp_zone_settings, set_bay_hidden, set_bay_name, set_multiviewer_audio_source,
    set_multiviewer_audio_volume, set_multiviewer_input_source, set_multiviewer_remote_control,
    set_multiviewer_video_source, set_multiviewer_view_mode, stored_name, subscribe_v2ip_stats,
    Addressee, Command, Request,
};
use mx_remote::error::{ControlError, SendError};
use mx_remote::ident::{BayUid, DeviceUid};
use mx_remote::info::bay;
use mx_remote::net::Ipv4;
use mx_remote::registry::{Bay, Device, State, WriteBack};
use mx_remote::types::{
    AmpZoneSettings, MultiviewerByte, RcKey, StreamAddr, StreamKind, V2ipAudioFormat,
    V2ipStreamSource, V2ipStreamSources,
};

fn uid_n(n: u8) -> DeviceUid {
    let mut bytes = [0u8; 16];
    bytes[0] = n;
    bytes[15] = 0xa5;
    DeviceUid::from_array(bytes)
}

fn group(last: u8) -> Ipv4 {
    Ipv4 { a: 239, b: 11, c: 1, d: last }
}

fn stream(kind: StreamKind, ip: Ipv4, port: u16) -> V2ipStreamSource {
    V2ipStreamSource { kind, ip, port }
}

/// A V2IP unit with an input on port 1 that advertises its streams and an
/// output sink on port 2 named "TV".
fn everything(state: &mut State, uid: DeviceUid, protocol: u16, serial: &str) {
    let mut d = Device::new(uid, "Unit".to_owned(), serial.to_owned());
    d.supported_protocol = protocol;
    d.features = MXR_FEATURE_MULTIVIEWER;
    let mut input = Bay::new(1, 0, MXR_BAY_HDMI_IN | MXR_BAY_V2IP_SOURCE_LOCAL, "Input 1".to_owned());
    input.user_name = Some("Player".to_owned());
    d.bays.push(input);
    let mut output = Bay::new(2, 1, MXR_BAY_HDMI_OUT | MXR_BAY_V2IP_SINK_LOCAL, "Output 1".to_owned());
    output.user_name = Some("TV".to_owned());
    output.hidden = Some(false);
    d.bays.push(output);
    d.v2ip_sources = Some(vec![V2ipStreamSources {
        uid,
        video: stream(StreamKind::Video, group(1), 5000),
        audio: stream(StreamKind::Audio, group(2), 5002),
        anc: stream(StreamKind::Anc, group(3), 5004),
        arc: None,
    }]);
    state.devices.push(d);
}

fn refused(r: &Result<(), ControlError>) -> bool {
    matches!(r, Err(ControlError::Send(SendError::ProtocolTooOld { .. })))
}

/// Passes a prepared command through the protocol check with the floor its opcode
/// carries, as the transmit path does.
fn gate(command: &Result<Command, ControlError>, floor: u16) -> Result<(), ControlError> {
    match command {
        Ok(c) => check_floor(&c.to, floor).map_err(ControlError::Send),
        Err(e) => Err(e.clone()),
    }
}

#[test]
fn a_signal_status_request_says_who_it_is_for() {
    let mut state = State::new();
    let one = uid_n(204);
    everything(&mut state, one, 0x28, "SS0003");

    let command = request_signal_status(&state, Some(one))
        .expect("the device is known and above the floor");
    match command.request {
        Request::SignalStatus { payload } => assert_eq!(
            &payload[..],
            &one.bytes[..],
            "a request for one unit carries its uid and nothing else"
        ),
        other => panic!("not a signal-status request: {other:?}"),
    }

    let command = request_signal_status(&state, None).expect("a broadcast names no device to be refused by");
    assert_eq!(command.to, Addressee::Broadcast);
    match command.request {
        Request::SignalStatus { payload } => assert!(
            payload.is_empty(),
            "an empty payload is what makes it a broadcast request"
        ),
        other => panic!("not a signal-status request: {other:?}"),
    }
}

#[test]
fn an_edid_request_and_a_key_decode_back_to_what_was_asked() {
    let mut state = State::new();
    let (target, peer) = (uid_n(205), uid_n(206));
    everything(&mut state, target, 0x28, "AK0001");
    everything(&mut state, peer, 0x28, "AK0002");
    state.devices[0].bays[1].bay_num = 2;

    let ask = match request_edid(&state, target, true).expect("refused").request {
        Request::Edid(r) => r,
        other => panic!("not an EDID request: {other:?}"),
    };
    assert_eq!(ask.target, target);
    assert!(ask.output, "the flag is what picks display over source");

    let ask = match request_edid(&state, target, false).expect("refused").request {
        Request::Edid(r) => r,
        other => panic!("not an EDID request: {other:?}"),
    };
    assert!(!ask.output);

    let key = match send_key(&state, BayUid::new(target, 2), RcKey(0x44)).expect("refused").request {
        Request::Key(k) => k,
        other => panic!("not a key: {other:?}"),
    };
    assert_eq!(key.target, target);
    assert_eq!(key.local_bay, 2);
    assert_eq!(key.key, RcKey(0x44));
}

#[test]
fn a_send_is_refused_below_the_opcode_floor() {
    let mut state = State::new();
    let old = uid_n(150);
    everything(&mut state, old, 0x11, "AMP4111");
    let zone = BayUid::new(old, 1);
    assert!(refused(&gate(&set_amp_zone_settings(&state, zone, AmpZoneSettings::default()), 0x1C)));
    assert!(refused(&gate(&subscribe_v2ip_stats(&state, old, true), 0x13)));
    assert!(!refused(&gate(&reboot(&state, old), 0x01)));

    let unknown = uid_n(152);
    everything(&mut state, unknown, 0, "UNK0001");
    assert!(!refused(&gate(
        &set_amp_zone_settings(&state, BayUid::new(unknown, 1), AmpZoneSettings::default()),
        0x1C
    )));

    let current = uid_n(151);
    everything(&mut state, current, 0x28, "AMP0480");
    assert!(!refused(&gate(
        &set_amp_zone_settings(&state, BayUid::new(current, 1), AmpZoneSettings::default()),
        0x1C
    )));
}

#[test]
fn a_device_exactly_on_a_floor_is_allowed() {
    let mut state = State::new();
    let uid = uid_n(164);
    everything(&mut state, uid, 0x11, "EDGE001");
    assert!(!refused(&gate(&reboot(&state, uid), 0x11)));
    assert!(refused(&gate(&subscribe_v2ip_stats(&state, uid, true), 0x13)));
}

#[test]
fn the_gate_sits_on_the_transmit_path_itself() {
    let mut state = State::new();
    let (old, current) = (uid_n(171), uid_n(172));
    everything(&mut state, old, 0x01, "OLD1");
    everything(&mut state, current, 0x28, "NEW1");
    let to = |uid: DeviceUid| Addressee::device(&state.devices[if uid == old { 0 } else { 1 }]);

    match check_floor(&to(old), 0x1C) {
        Err(SendError::ProtocolTooOld { serial, supported, required }) => {
            assert_eq!((serial.as_str(), supported, required), ("OLD1", 0x01, 0x1C));
        }
        other => panic!("an old device was let through: {other:?}"),
    }
    assert!(check_floor(&to(current), 0x1C).is_ok());
    assert!(check_floor(&Addressee::Broadcast, 0x1C).is_ok());
}

#[test]
fn a_write_back_waits_for_the_send() {
    let mut state = State::new();
    let (old, current) = (uid_n(198), uid_n(199));
    everything(&mut state, old, 0x01, "WB0001");
    everything(&mut state, current, 0x28, "WB0002");

    // Refused for its protocol: nothing is written back.
    let refused_bay = BayUid::new(old, 2);
    for command in [
        set_bay_name(&state, refused_bay, "Kitchen").expect("prepared"),
        set_bay_hidden(&state, refused_bay, true).expect("prepared"),
    ] {
        let sent = check_floor(&command.to, 0x06).map(|_| 0usize);
        assert!(complete(&mut state, command, sent).is_err());
    }
    let b = bay(&state, refused_bay).expect("no bay");
    assert_eq!(b.user_name, "TV", "a refused rename still renamed the bay");
    assert_eq!(b.hidden, Some(false), "a refused hide still hid the bay");

    // Sent: both are written back.
    let sent_bay = BayUid::new(current, 2);
    for command in [
        set_bay_name(&state, sent_bay, "Kitchen").expect("prepared"),
        set_bay_hidden(&state, sent_bay, true).expect("prepared"),
    ] {
        let sent = check_floor(&command.to, 0x06).map(|_| 24usize);
        assert!(complete(&mut state, command, sent).is_ok());
    }
    let b = bay(&state, sent_bay).expect("no bay");
    assert_eq!(b.user_name, "Kitchen", "the rename was not written back");
    assert_eq!(b.hidden, Some(true), "the hide was not written back");
}

#[test]
fn a_source_switch_names_one_stream_and_zeroes_the_other() {
    let mut state = State::new();
    let (video, audio) = (uid_n(193), uid_n(194));
    everything(&mut state, video, 0x28, "SW0001");
    everything(&mut state, audio, 0x28, "SW0002");

    let unset = Ipv4 { a: 0, b: 0, c: 0, d: 0 };
    match select_video_source(&state, BayUid::new(video, 2), 1).expect("refused").request {
        Request::SourceSwitch { target, video: v, audio: a } => {
            assert_eq!(target, video);
            assert_eq!(v, group(1), "the video group did not reach the video slot");
            assert_eq!(a, unset);
        }
        other => panic!("not a source switch: {other:?}"),
    }
    match select_audio_source(&state, BayUid::new(audio, 2), 1).expect("refused").request {
        Request::SourceSwitch { video: v, audio: a, .. } => {
            assert_eq!(a, group(2), "the audio group did not reach the audio slot");
            assert_eq!(v, unset, "the audio group reached the video slot as well");
        }
        other => panic!("not a source switch: {other:?}"),
    }
}

#[test]
fn a_route_needs_a_sink_and_a_source_that_advertised() {
    let mut state = State::new();
    let unit = uid_n(20);
    everything(&mut state, unit, 0x28, "RT0001");
    assert!(matches!(
        select_video_source(&state, BayUid::new(unit, 1), 1),
        Err(ControlError::Unsupported("routing needs a V2IP sink"))
    ));
    assert!(matches!(
        select_video_source(&state, BayUid::new(unit, 2), 9),
        Err(ControlError::UnknownBay(b)) if b == BayUid::new(unit, 9)
    ));
    state.devices[0].v2ip_sources = None;
    assert!(matches!(
        select_audio_source(&state, BayUid::new(unit, 2), 1),
        Err(ControlError::NotReported("the source's stream addresses"))
    ));
}

#[test]
fn a_source_named_by_its_user_name_is_routed_like_its_port() {
    let mut state = State::new();
    let unit = uid_n(21);
    everything(&mut state, unit, 0x28, "RT0002");
    let sink = BayUid::new(unit, 2);
    assert_eq!(
        select_video_source_by_name(&state, sink, "Player").expect("refused").request,
        select_video_source(&state, sink, 1).expect("refused").request
    );
    match select_video_source_by_name(&state, sink, "Nothing") {
        Err(ControlError::UnknownSource(name)) => assert_eq!(name, "Nothing"),
        other => panic!("expected an unknown source: {other:?}"),
    }
    let format = V2ipAudioFormat { sample_rate: 48000, channels: 2 };
    match select_audio_source_by_name(&state, sink, "Player", Some(format)).expect("refused").request {
        Request::ManualAudioSwitch { audio, audio_port, format: f, .. } => {
            assert_eq!(audio, group(2));
            assert_eq!(audio_port, Some(5002));
            assert_eq!(f, Some(format));
        }
        other => panic!("not a manual switch: {other:?}"),
    }
    let _ = StreamAddr { ip: group(2), port: 5002 };
}

#[test]
fn an_endpoint_selection_tells_its_source_from_its_sink() {
    let mut state = State::new();
    let (sink, source) = (uid_n(186), uid_n(187));
    everything(&mut state, sink, 0x28, "EP0001");
    everything(&mut state, source, 0x28, "EP0002");
    match select_audio_endpoint_input(&state, sink, 5, source, 9).expect("refused").request {
        Request::AudioSelectInput { sink: s, sink_endpoint, source: src, source_endpoint } => {
            assert_eq!(s, sink, "the sink is not the listening end");
            assert_eq!(src, source, "the source is not the end being listened to");
            assert_eq!((sink_endpoint, source_endpoint), (5, 9));
        }
        other => panic!("not an endpoint selection: {other:?}"),
    }
}

fn payload(r: Result<Command, ControlError>) -> Vec<u8> {
    match r.expect("refused").request {
        Request::Multiviewer { payload } => payload,
        other => panic!("not a multiviewer command: {other:?}"),
    }
}

#[test]
fn a_multiviewer_command_carries_its_sub_opcode_and_parameters() {
    let mut state = State::new();
    let uid = uid_n(197);
    everything(&mut state, uid, 0x28, "MV0002");

    let mapped = uid_n(60);
    let mut config_source = mapped.bytes.to_vec();
    config_source.push(3);
    config_source.extend_from_slice(&[0; 7]);

    let calls: Vec<(&str, u8, Vec<u8>, Vec<u8>)> = vec![
        ("view_mode", 1, vec![4], payload(set_multiviewer_view_mode(&state, uid, MultiviewerByte(4)))),
        ("video_source", 2, vec![1, 2], payload(set_multiviewer_video_source(&state, uid, 1, MultiviewerByte(2)))),
        ("audio_source", 3, vec![1], payload(set_multiviewer_audio_source(&state, uid, MultiviewerByte(2)))),
        ("audio_volume", 4, vec![70, 1], payload(set_multiviewer_audio_volume(&state, uid, 70, true))),
        ("remote_control", 6, vec![1], payload(set_multiviewer_remote_control(&state, uid, MultiviewerByte(2)))),
        ("input_source", 14, config_source, payload(set_multiviewer_input_source(&state, uid, 3, mapped))),
        ("auto_route", 15, vec![], payload(multiviewer_auto_route(&state, uid))),
    ];
    for (name, sub, args, payload) in calls {
        assert_eq!(&payload[..16], &uid.bytes[..], "{name}: wrong target");
        assert_eq!(payload[16], sub, "{name}: wrong sub-opcode");
        assert_eq!(&payload[17..24], &[0; 7], "{name}: the padding carries data");
        assert_eq!(&payload[24..], &args[..], "{name}: wrong parameters");
    }
}

#[test]
fn a_device_that_is_no_multiviewer_is_refused_one_command() {
    let mut state = State::new();
    let uid = uid_n(198);
    everything(&mut state, uid, 0x28, "MV0003");
    state.devices[0].features = 0;
    assert!(matches!(
        multiviewer_auto_route(&state, uid),
        Err(ControlError::Unsupported("the device is not a multiviewer"))
    ));
}

#[test]
fn a_bay_name_is_stored_as_sixteen_bytes() {
    assert_eq!(stored_name("Kitchen"), "Kitchen");
    assert_eq!(stored_name("0123456789abcdefXYZ"), "0123456789abcdef");
    // The cut falls inside the two-byte 'é' at bytes 15-16.
    assert_eq!(stored_name("0123456789abcdeé"), "0123456789abcde\u{FFFD}");
    assert_eq!(stored_name(""), "");

    let mut state = State::new();
    let unit = uid_n(30);
    everything(&mut state, unit, 0x28, "NM0001");
    let command = set_bay_name(&state, BayUid::new(unit, 2), "A very long bay name").expect("refused");
    match &command.write_back {
        Some(WriteBack::UserName { name, .. }) => assert_eq!(name, "A very long bay "),
        other => panic!("no rename to write back: {other:?}"),
    }
}

#[test]
fn a_monitoring_pulse_goes_to_every_peer() {
    let c = send_monitoring_pulse();
    assert_eq!(c.to, Addressee::Broadcast);
    assert_eq!(c.request, Request::MonitoringPulse);
    assert!(c.write_back.is_none());
}

#[test]
fn a_reboot_marks_the_device_once_the_frame_is_away() {
    let mut state = State::new();
    let unit = uid_n(31);
    everything(&mut state, unit, 0x28, "RB0001");
    let command = reboot(&state, unit).expect("refused");
    assert!(complete(&mut state, command.clone(), Err(SendError::NotConnected)).is_err());
    assert!(!state.devices[0].rebooting);
    assert!(complete(&mut state, command, Ok(24)).is_ok());
    assert!(state.devices[0].rebooting);
    assert!(matches!(reboot(&state, uid_n(99)), Err(ControlError::UnknownDevice(_))));
}
