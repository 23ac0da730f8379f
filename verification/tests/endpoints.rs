use mx_remote::abi::{mxr_result_t, mxr_uid_t, LastError};
use mx_remote::cabi::{mxr_audio_endpoint_t, no_endpoint, not_reported};
use mx_remote::ident::DeviceUid;
use mx_remote::info::{audio_endpoints, endpoint_children, Missing};
use mx_remote::net::Ipv4;
use mx_remote::registry::{Device, State};
use mx_remote::types::{AudioEndpoint, StreamKind, V2ipStreamSource};

fn uid_n(n: u8) -> DeviceUid {
    let mut bytes = [0u8; 16];
    bytes[0] = n;
    bytes[15] = 0xa5;
    DeviceUid::from_array(bytes)
}

fn endpoint(id: u8, parent: Option<u8>, children: Vec<u8>) -> AudioEndpoint {
    AudioEndpoint {
        id,
        features: 1,
        address: None,
        parent,
        children,
        inputs_available: None,
        inputs_routed: None,
        linked_device: DeviceUid::from_array([0; 16]),
        linked_endpoint: None,
    }
}

fn tree() -> State {
    let mut state = State::new();
    let mut d = Device::new(uid_n(1), "Amp".to_owned(), "AE0001".to_owned());
    d.audio = Some(vec![
        endpoint(0, None, vec![1, 2]),
        endpoint(1, Some(0), vec![]),
        endpoint(2, Some(0), vec![]),
    ]);
    state.devices.push(d);
    state.devices.push(Device::new(uid_n(2), "Quiet".to_owned(), "AE0002".to_owned()));
    state
}

#[test]
fn an_endpoints_children_are_read_by_its_identifier() {
    let state = tree();
    assert_eq!(endpoint_children(&state, uid_n(1), 0), Ok(vec![1, 2]));
    assert_eq!(endpoint_children(&state, uid_n(1), 2), Ok(vec![]));
    assert_eq!(endpoint_children(&state, uid_n(1), 9), Err(Missing::Part));
    assert_eq!(endpoint_children(&state, uid_n(2), 0), Err(Missing::NotReported));
    assert_eq!(endpoint_children(&state, uid_n(3), 0), Err(Missing::Device));
    assert_eq!(audio_endpoints(&state, uid_n(1)).map(|l| l.len()), Ok(3));
}

#[test]
fn a_missing_subsystem_says_which_answer_it_is() {
    let mut slot = LastError::new();
    let uid = mxr_uid_t { bytes: uid_n(2).bytes };
    assert_eq!(not_reported(&mut slot, false, uid, "audio endpoints"), mxr_result_t::MXR_ERR_NOT_FOUND);
    assert_eq!(slot.text, "no device 00000002.00000000.00000000.a5000000");
    assert_eq!(not_reported(&mut slot, true, uid, "audio endpoints"), mxr_result_t::MXR_ERR_NOT_REPORTED);
    assert_eq!(slot.text, "the device has reported no audio endpoints");
    assert_eq!(no_endpoint(&mut slot, 17), mxr_result_t::MXR_ERR_NOT_FOUND);
    assert_eq!(slot.text, "the device has no audio endpoint 17");
}

#[test]
fn an_endpoint_reaches_c_with_absence_spelled_minus_one() {
    let root = mxr_audio_endpoint_t::of(&endpoint(0, None, vec![1, 2]));
    assert_eq!(root.parent, -1);
    assert_eq!(root.child_count, 2);
    assert_eq!(root.linked_endpoint, -1);
    assert!(!root.has_address);
    let mut leaf = endpoint(1, Some(0), vec![]);
    leaf.address = Some(V2ipStreamSource {
        kind: StreamKind::Audio,
        ip: Ipv4 { a: 239, b: 2, c: 3, d: 4 },
        port: 5004,
    });
    leaf.linked_endpoint = Some(7);
    leaf.inputs_routed = Some(0b10);
    let c = mxr_audio_endpoint_t::of(&leaf);
    assert_eq!(c.parent, 0);
    assert!(c.has_address);
    assert_eq!(c.address.port, 5004);
    assert_eq!(c.linked_endpoint, 7);
    assert!(c.has_inputs_routed && !c.has_inputs_available);
    assert_eq!(c.inputs_routed, 2);
}
