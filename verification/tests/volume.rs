use mx_remote::bits::{MXR_BAY_AUDIO_AMP_OUT, MXR_BAY_DOLBY, MXR_BAY_HDMI_OUT};
use mx_remote::control::{complete, set_volume, volume_up, Addressee, Request};
use mx_remote::error::{ControlError, SendError};
use mx_remote::ident::{BayUid, DeviceUid};
use mx_remote::info::bay;
use mx_remote::registry::{Bay, BayLink, Device, State, WriteBack};
use mx_remote::types::{AmpDolbySettings, VolumeMuteStatus};

/// A distinguishable identifier, from one byte.
fn uid_n(n: u8) -> DeviceUid {
    let mut bytes = [0u8; 16];
    bytes[0] = n;
    bytes[15] = 0xa5;
    DeviceUid::from_array(bytes)
}

/// The Dolby input a bay's feature word names, in bits 24-31.
fn dolby_output(input_bay: u8) -> u32 {
    MXR_BAY_AUDIO_AMP_OUT | MXR_BAY_DOLBY | (u32::from(input_bay) << 24)
}

/// An amplifier in `mode` whose outputs are four Dolby zones, one plain zone,
/// and a ninth output carrying the Dolby bit from outside the group.
fn dolby_amplifier(mode: u8) -> (State, DeviceUid) {
    let amp = uid_n(0x50);
    let mut device = Device::new(amp, "ProAmp8".to_owned(), "AMP00002".to_owned());
    for zone in 0..4u8 {
        let mut b = Bay::new(
            9 + u16::from(zone),
            zone,
            dolby_output(8),
            format!("Output {}", zone + 1),
        );
        b.user_name = Some("Dolby zone".to_owned());
        device.bays.push(b);
    }
    let mut kitchen = Bay::new(13, 4, MXR_BAY_AUDIO_AMP_OUT, "Output 5".to_owned());
    kitchen.user_name = Some("Kitchen".to_owned());
    device.bays.push(kitchen);
    let mut line = Bay::new(17, 8, dolby_output(8), "Output 9".to_owned());
    line.user_name = Some("Line out".to_owned());
    device.bays.push(line);
    device.dolby_settings = Some(AmpDolbySettings {
        mode,
        pcm_upmix: false,
        dolby_detected: false,
        pcm_upmix_active: false,
    });
    let mut state = State::new();
    state.devices.push(device);
    (state, amp)
}

/// The volume each output reads, by port.
fn zone_volumes(state: &State, amp: DeviceUid, ports: &[u16]) -> Vec<Option<u8>> {
    ports
        .iter()
        .map(|port| {
            bay(state, BayUid::new(amp, *port))
                .and_then(|b| b.volume)
                .map(|v| v.volume())
        })
        .collect()
}

fn report(state: &mut State, at: BayUid, volume: u8) {
    state.apply_volume(at, VolumeMuteStatus::both(volume, Some(false)));
}

#[test]
fn a_four_zone_dolby_group_all_read_the_volume_reported_for_its_first_zone() {
    let (mut state, amp) = dolby_amplifier(2);
    report(&mut state, BayUid::new(amp, 9), 51);

    assert_eq!(
        zone_volumes(&state, amp, &[9, 10, 11, 12]),
        vec![Some(51); 4],
        "the four zones do not share the volume the amplifier reported"
    );
    assert_eq!(
        zone_volumes(&state, amp, &[13, 17]),
        vec![None, None],
        "the volume reached an output outside the group"
    );
}

#[test]
fn a_three_zone_dolby_group_stops_at_its_third_zone() {
    let (mut state, amp) = dolby_amplifier(1);
    report(&mut state, BayUid::new(amp, 9), 51);

    assert_eq!(
        zone_volumes(&state, amp, &[9, 10, 11]),
        vec![Some(51); 3],
        "the three zones do not share the volume the amplifier reported"
    );
    assert_eq!(
        zone_volumes(&state, amp, &[12, 13, 17]),
        vec![None, None, None],
        "the fourth output is not in a three-zone group"
    );
}

#[test]
fn an_amplifier_out_of_dolby_mode_groups_nothing() {
    let (mut state, amp) = dolby_amplifier(0);
    report(&mut state, BayUid::new(amp, 9), 51);

    assert_eq!(
        zone_volumes(&state, amp, &[9, 10, 11, 12]),
        vec![Some(51), None, None, None],
        "a standard-mode amplifier drives its outputs separately"
    );
}

#[test]
fn a_volume_against_a_later_zone_is_not_spread_over_the_group() {
    let (mut state, amp) = dolby_amplifier(2);
    report(&mut state, BayUid::new(amp, 11), 42);

    assert_eq!(
        zone_volumes(&state, amp, &[9, 10, 11, 12]),
        vec![None, None, Some(42), None],
        "a report against a later zone was spread over the group"
    );
}

#[test]
fn a_volume_for_a_bay_never_heard_of_changes_nothing() {
    let (mut state, amp) = dolby_amplifier(2);
    report(&mut state, BayUid::new(amp, 99), 42);
    report(&mut state, BayUid::new(uid_n(1), 9), 42);
    assert_eq!(zone_volumes(&state, amp, &[9, 10, 11, 12, 13, 17]), vec![None; 6]);
}

/// A OneIP output whose volume control the mesh put on an amplifier zone,
/// which names the output back.
fn linked_to_amplifier() -> (State, BayUid, BayUid) {
    let amp = uid_n(0x40);
    let oneip = uid_n(0x41);
    let mut amplifier = Device::new(amp, "ProAmp8".to_owned(), "AMP00001".to_owned());
    amplifier.supported_protocol = 0x28;
    let mut zone = Bay::new(1, 0, MXR_BAY_AUDIO_AMP_OUT, "Zone 1".to_owned());
    zone.link = Some(BayLink {
        serial: "ONE00001".to_owned(),
        bay_name: "Output 1".to_owned(),
    });
    amplifier.bays.push(zone);
    let mut output_device = Device::new(oneip, "OneIP".to_owned(), "ONE00001".to_owned());
    output_device.supported_protocol = 0x28;
    let mut output = Bay::new(1, 0, MXR_BAY_HDMI_OUT, "Output 1".to_owned());
    output.user_name = Some("Living room".to_owned());
    output.link = Some(BayLink {
        serial: "AMP00001".to_owned(),
        bay_name: "Zone 1".to_owned(),
    });
    output_device.bays.push(output);
    let mut state = State::new();
    state.devices.push(amplifier);
    state.devices.push(output_device);
    (state, BayUid::new(oneip, 1), BayUid::new(amp, 1))
}

fn volume_target(request: &Request) -> (DeviceUid, u16, VolumeMuteStatus) {
    match request {
        Request::SetVolume { target, port, volume } => (*target, *port, *volume),
        other => panic!("not a volume command: {other:?}"),
    }
}

#[test]
fn a_linked_output_reads_the_volume_of_the_zone_it_is_wired_to() {
    let (mut state, output, zone) = linked_to_amplifier();
    report(&mut state, zone, 51);

    let info = bay(&state, output).expect("the output vanished");
    assert_eq!(
        info.linked_bay,
        Some(zone),
        "the output does not name the zone it is linked to"
    );
    assert_eq!(
        info.volume.map(|v| v.volume()),
        Some(51),
        "the output reads no volume, so the link was not followed"
    );
    assert_eq!(
        bay(&state, zone).and_then(|b| b.volume).map(|v| v.volume()),
        Some(51),
        "the zone lost its own volume"
    );
}

#[test]
fn setting_a_linked_output_addresses_the_zone_it_is_wired_to() {
    let (mut state, output, zone) = linked_to_amplifier();
    report(&mut state, zone, 51);

    let command = set_volume(&state, output, 40, Some(false))
        .expect("setting the linked output was refused rather than sent");
    let (target, port, volume) = volume_target(&command.request);
    assert_eq!(target, zone.device, "the frame names the output's device, not the amplifier");
    assert_eq!(port, zone.port, "the frame names the output's port, not the zone's");
    assert_eq!(volume.volume(), 40);
    match command.to {
        Addressee::Device { uid, .. } => assert_eq!(uid, zone.device),
        Addressee::Broadcast => panic!("a volume command was broadcast"),
    }
}

#[test]
fn stepping_a_linked_output_starts_from_the_zone_volume() {
    let (mut state, output, zone) = linked_to_amplifier();
    report(&mut state, zone, 51);

    let command = volume_up(&state, output).expect("the step had no volume to start from");
    let (_, _, volume) = volume_target(&command.request);
    assert_eq!(volume.volume_left, Some(52), "the step did not start from the zone's 51");
    assert_eq!(volume.volume_right, Some(52));
}

#[test]
fn a_bay_with_its_own_volume_control_is_not_redirected() {
    let (mut state, _, zone) = linked_to_amplifier();
    report(&mut state, zone, 51);

    let command = set_volume(&state, zone, 40, Some(false)).expect("setting the zone was refused");
    let (target, port, _) = volume_target(&command.request);
    assert_eq!(target, zone.device, "the zone's own volume was redirected somewhere else");
    assert_eq!(port, zone.port);
}

#[test]
fn a_volume_above_a_hundred_is_sent_as_a_hundred() {
    let (state, _, zone) = linked_to_amplifier();
    let command = set_volume(&state, zone, 250, None).expect("refused");
    let (_, _, volume) = volume_target(&command.request);
    assert_eq!(volume.volume_left, Some(100));
    assert_eq!(volume.muted_left, None);
}

#[test]
fn a_bay_without_volume_control_or_link_is_refused() {
    let (mut state, output, _) = linked_to_amplifier();
    state.devices[1].bays[0].link = None;
    match set_volume(&state, output, 40, None) {
        Err(ControlError::Unsupported(what)) => assert_eq!(what, "the bay has no volume control"),
        other => panic!("expected a refusal: {other:?}"),
    }
    match volume_up(&state, output) {
        Err(ControlError::NotReported(what)) => assert_eq!(what, "the bay's volume"),
        other => panic!("expected the volume to be missing: {other:?}"),
    }
}

#[test]
fn an_unknown_bay_or_device_is_named_in_the_refusal() {
    let (state, _, zone) = linked_to_amplifier();
    let stranger = uid_n(9);
    assert!(matches!(
        set_volume(&state, BayUid::new(stranger, 1), 10, None),
        Err(ControlError::UnknownDevice(u)) if u == stranger
    ));
    let missing = BayUid::new(zone.device, 77);
    assert!(matches!(
        set_volume(&state, missing, 10, None),
        Err(ControlError::UnknownBay(b)) if b == missing
    ));
}

#[test]
fn a_sent_volume_is_written_back_and_a_refused_one_is_not() {
    let (mut state, output, zone) = linked_to_amplifier();
    report(&mut state, zone, 51);

    let command = set_volume(&state, output, 40, None).expect("refused");
    let refused = complete(
        &mut state,
        command.clone(),
        Err(SendError::NotConnected),
    );
    assert!(matches!(refused, Err(ControlError::Send(SendError::NotConnected))));
    assert_eq!(bay(&state, zone).and_then(|b| b.volume).map(|v| v.volume()), Some(51));

    assert!(complete(&mut state, command, Ok(40)).is_ok());
    assert_eq!(bay(&state, zone).and_then(|b| b.volume).map(|v| v.volume()), Some(40));
    assert_eq!(bay(&state, output).and_then(|b| b.volume).map(|v| v.volume()), Some(40));
    let _ = WriteBack::Rebooting { device: zone.device };
}
