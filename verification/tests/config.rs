use mx_remote::abi::{mxr_result_t, CText, LastError};
use mx_remote::config::{remote_target, to_config, uid_from_stored, Config, ConfigText, Network};
use mx_remote::net::Ipv4;

fn blank() -> ConfigText<'static> {
    ConfigText {
        target_ip: CText::Null,
        port: 0,
        broadcast: false,
        local_ip: CText::Null,
        interface: CText::Null,
        name: CText::Null,
        uid: CText::Null,
        uid_path: CText::Null,
    }
}

#[test]
fn a_zeroed_configuration_asks_for_the_defaults() {
    let mut slot = LastError::new();
    let c = to_config(&mut slot, &blank()).expect("the defaults were refused");
    assert_eq!(c.target_ip, None);
    assert_eq!(c.port, None, "a zero port is not a port");
    assert_eq!(c.local_ip, None);
    assert!(!c.broadcast);
    assert_eq!(c.name, None);
    assert_eq!(c.uid, None);
    assert_eq!(c.client_name(), "MXR Rust");
}

#[test]
fn a_configuration_carries_what_it_was_given() {
    let mut slot = LastError::new();
    let given = ConfigText {
        target_ip: CText::Utf8("192.168.1.20"),
        port: 9999,
        broadcast: true,
        local_ip: CText::Utf8("10.0.0.2"),
        interface: CText::Utf8("eth0"),
        name: CText::Utf8("Kitchen panel"),
        uid: CText::Utf8("00000007.00000000.00000000.a5000000"),
        uid_path: CText::Utf8("/tmp/uid"),
    };
    let c = to_config(&mut slot, &given).expect("refused");
    assert_eq!(c.target_ip, Some(Ipv4 { a: 192, b: 168, c: 1, d: 20 }));
    assert_eq!(c.port, Some(9999));
    assert!(c.broadcast);
    assert_eq!(c.local_ip, Some(Ipv4 { a: 10, b: 0, c: 0, d: 2 }));
    assert_eq!(c.interface.as_deref(), Some("eth0"));
    assert_eq!(c.client_name(), "Kitchen panel");
    let uid = c.uid.expect("no identifier");
    assert_eq!(uid.bytes[0], 7);
    assert_eq!(uid.bytes[15], 0xa5);
    assert_eq!(c.uid_path.as_deref(), Some("/tmp/uid"));
}

#[test]
fn a_configuration_that_cannot_be_read_says_why() {
    let mut slot = LastError::new();
    let bad_ip = ConfigText { local_ip: CText::Utf8("10.0.0.256"), ..blank() };
    assert_eq!(to_config(&mut slot, &bad_ip).err(), Some(mxr_result_t::MXR_ERR_INVALID_ARGUMENT));
    assert_eq!(slot.text, "local_ip is not an IPv4 address: \"10.0.0.256\"");

    let bad_uid = ConfigText { uid: CText::Utf8("not a uid"), ..blank() };
    assert_eq!(to_config(&mut slot, &bad_uid).err(), Some(mxr_result_t::MXR_ERR_INVALID_ARGUMENT));
    assert_eq!(slot.text, "not a device identifier: not a uid");

    let bad_text = ConfigText { name: CText::NotUtf8, ..blank() };
    assert!(to_config(&mut slot, &bad_text).is_err());
    assert_eq!(slot.text, "string is not valid UTF-8");
}

#[test]
fn the_target_falls_back_to_the_group_then_the_interface() {
    let group = Ipv4 { a: 239, b: 255, c: 255, d: 250 };
    let local_broadcast = Ipv4 { a: 10, b: 0, c: 0, d: 255 };
    let mut n = Network::of(&Config::new());
    assert_eq!(n.target(group, Some(local_broadcast)), group);
    assert_eq!(n.port(1900, 2000), 1900);
    assert!(n.reconfigure(None, true), "switching to broadcast is a change");
    assert_eq!(n.target(group, Some(local_broadcast)), local_broadcast);
    assert_eq!(n.target(group, None), group);
    assert_eq!(n.port(1900, 2000), 2000);
    assert!(!n.reconfigure(None, true), "the same settings are no change");
    n.target_ip = Some(Ipv4 { a: 1, b: 2, c: 3, d: 4 });
    assert_eq!(n.target(group, Some(local_broadcast)), Ipv4 { a: 1, b: 2, c: 3, d: 4 });
}

#[test]
fn a_client_that_was_never_started_has_no_target() {
    let mut slot = LastError::new();
    let mut ip = [0u8; 16];
    assert_eq!(remote_target(&mut slot, None, &mut ip, true), (mxr_result_t::MXR_ERR_NOT_CONNECTED, None));
    assert_eq!(slot.text, "the client has no socket");

    let target = Some((Ipv4 { a: 239, b: 255, c: 255, d: 250 }, 1234));
    let mut short = [0u8; 8];
    assert_eq!(
        remote_target(&mut slot, target, &mut short, true),
        (mxr_result_t::MXR_ERR_INVALID_ARGUMENT, None)
    );
    assert_eq!(remote_target(&mut slot, target, &mut ip, true), (mxr_result_t::MXR_OK, Some(1234)));
    assert_eq!(&ip[..16], b"239.255.255.250\0");
}

#[test]
fn a_stored_identifier_is_its_first_sixteen_bytes() {
    assert_eq!(uid_from_stored(&[1; 15]), None);
    let mut stored = vec![0u8; 20];
    stored[0] = 7;
    stored[16] = 9;
    let uid = uid_from_stored(&stored).expect("sixteen bytes were there");
    assert_eq!(uid.bytes[0], 7);
    assert_eq!(uid.bytes[15], 0);
}

#[test]
fn an_unreadable_local_address_is_named_in_the_error() {
    let mut slot = LastError::new();
    let bad = ConfigText { local_ip: CText::Utf8("300.1.1.1"), ..blank() };
    assert!(to_config(&mut slot, &bad).is_err());
    assert!(slot.text.contains("local_ip"));
    assert_eq!(slot.text, "local_ip is not an IPv4 address: \"300.1.1.1\"");
}
