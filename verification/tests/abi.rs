use mx_remote::abi::{
    bay_or_zero, fail, from_control, from_send, mxr_bay_uid_t, mxr_result_t, mxr_tribool_t,
    mxr_uid_t, no_handle, not_heard_from, null_out, opt_str, panic_text, put_str, req_str,
    uid_from_string, uid_to_string, CText, LastError, MXR_UID_STRING_LEN,
};
use mx_remote::bits::{
    mxr_bay_status_hdcp, mxr_bay_status_rc_type, mxr_signal_type_bpp, mxr_signal_type_bpp_index,
    mxr_signal_type_colour_space, mxr_signal_type_is_set, mxr_signal_type_svd,
    MXR_BAY_STATUS_SIGNAL_DETECTED,
};
use mx_remote::error::{ControlError, SendError};
use mx_remote::ident::{BayUid, DeviceUid};

fn uid_n(n: u8) -> mxr_uid_t {
    let mut bytes = [0u8; 16];
    bytes[0] = n;
    bytes[15] = 0xa5;
    mxr_uid_t { bytes }
}

/// Reads a fixed-width field the way C would.
fn field(bytes: &[u8]) -> String {
    let text: Vec<u8> = bytes.iter().take_while(|b| **b != 0).copied().collect();
    String::from_utf8_lossy(&text).into_owned()
}

#[test]
fn an_identifier_survives_the_trip_out_to_text_and_back() {
    let mut slot = LastError::new();
    let uid = uid_n(7);
    let mut text = [0u8; MXR_UID_STRING_LEN];
    let rc = uid_to_string(&mut slot, uid, &mut text);
    assert_eq!(rc, mxr_result_t::MXR_OK);
    assert_eq!(field(&text), "00000007.00000000.00000000.a5000000");

    let written = field(&text);
    let back = uid_from_string(&mut slot, CText::Utf8(&written));
    assert_eq!(back, Ok(uid), "{} did not read back as it was written", field(&text));
}

#[test]
fn a_buffer_too_short_for_an_identifier_is_refused_rather_than_filled() {
    let mut slot = LastError::new();
    let mut text = [0u8; MXR_UID_STRING_LEN - 1];
    let rc = uid_to_string(&mut slot, uid_n(1), &mut text);
    assert_eq!(rc, mxr_result_t::MXR_ERR_INVALID_ARGUMENT);
    assert_eq!(text[0], 0, "a refused call still wrote to the buffer");
}

#[test]
fn text_that_is_not_an_identifier_is_refused_rather_than_read_as_zero() {
    let mut slot = LastError::new();
    let rc = uid_from_string(&mut slot, CText::Utf8("not a uid"));
    assert_eq!(rc, Err(mxr_result_t::MXR_ERR_INVALID_ARGUMENT));
    assert!(
        slot.text.contains("not a uid"),
        "the failure did not say what could not be read: {}",
        slot.text
    );
}

#[test]
fn an_identifier_reads_in_either_case() {
    let mut slot = LastError::new();
    let upper = uid_from_string(&mut slot, CText::Utf8("00000007.00000000.00000000.A5000000"));
    assert_eq!(upper, Ok(uid_n(7)));
    assert_eq!(
        uid_from_string(&mut slot, CText::Null),
        Err(mxr_result_t::MXR_ERR_INVALID_ARGUMENT)
    );
    assert_eq!(slot.text, "a required string argument was null");
}

#[test]
fn the_empty_identifier_is_the_one_the_protocol_spells_absence_with() {
    assert!(mxr_uid_t::default().is_zero());
    assert!(!uid_n(1).is_zero());
    assert!(bay_or_zero(None).device.is_zero());
    assert_eq!(bay_or_zero(None).port, 0);
    let bay = BayUid::new(DeviceUid::from_array(uid_n(4).bytes), 6);
    assert_eq!(bay_or_zero(Some(bay)), mxr_bay_uid_t::from_bay(bay));
}

#[test]
fn a_null_handle_is_an_argument_error_rather_than_a_crash() {
    let mut slot = LastError::new();
    assert_eq!(no_handle(&mut slot), 0);
    assert_eq!(slot.text, "the client handle is null");
    assert_eq!(
        null_out(&mut slot, "device info"),
        mxr_result_t::MXR_ERR_INVALID_ARGUMENT
    );
    assert_eq!(slot.text, "the device info output pointer is null");
    assert_eq!(not_heard_from(&mut slot, uid_n(7)), mxr_result_t::MXR_ERR_NOT_FOUND);
    assert_eq!(slot.text, "no device 00000007.00000000.00000000.a5000000");
}

#[test]
fn the_signal_type_accessors_read_a_packed_word() {
    let word = 16 | (1 << 8) | (2 << 13);
    assert_eq!(mxr_signal_type_svd(word), 16);
    assert_eq!(mxr_signal_type_colour_space(word), 1);
    assert_eq!(mxr_signal_type_bpp_index(word), 2);
    assert_eq!(mxr_signal_type_bpp(word), 10);
    assert!(mxr_signal_type_is_set(word));

    assert!(!mxr_signal_type_is_set(5 << 13));
    assert!(!mxr_signal_type_is_set(0));
    assert_eq!(mxr_signal_type_bpp(5 << 13), 0);

    let status = MXR_BAY_STATUS_SIGNAL_DETECTED | (3 << 16) | (2 << 22);
    assert_eq!(mxr_bay_status_rc_type(status), 3);
    assert_eq!(mxr_bay_status_hdcp(status), 2);
}

#[test]
fn every_failure_is_a_negative_code_and_success_is_zero() {
    assert_eq!(mxr_result_t::MXR_OK.code(), 0);
    for r in [
        mxr_result_t::MXR_ERR_INVALID_ARGUMENT,
        mxr_result_t::MXR_ERR_NOT_FOUND,
        mxr_result_t::MXR_ERR_PROTOCOL_TOO_OLD,
        mxr_result_t::MXR_ERR_NOT_CONNECTED,
        mxr_result_t::MXR_ERR_IO,
        mxr_result_t::MXR_ERR_UNSUPPORTED,
        mxr_result_t::MXR_ERR_NOT_REPORTED,
        mxr_result_t::MXR_ERR_PANIC,
    ] {
        assert!(r.code() < 0, "{r:?} is not negative");
    }
    assert_eq!(mxr_tribool_t::from_option(None).code(), -1);
    assert_eq!(mxr_tribool_t::from_option(Some(false)).code(), 0);
    assert_eq!(mxr_tribool_t::from_option(Some(true)).code(), 1);
}

#[test]
fn a_control_error_becomes_its_code_and_its_message() {
    let mut slot = LastError::new();
    assert_eq!(from_control(&mut slot, Ok(())), mxr_result_t::MXR_OK);
    let uid = DeviceUid::from_array(uid_n(7).bytes);
    assert_eq!(
        from_control(&mut slot, Err(ControlError::UnknownDevice(uid))),
        mxr_result_t::MXR_ERR_NOT_FOUND
    );
    assert_eq!(slot.text, "no device 00000007.00000000.00000000.a5000000");
    assert_eq!(
        from_control(&mut slot, Err(ControlError::NotReported("the bay's volume"))),
        mxr_result_t::MXR_ERR_NOT_REPORTED
    );
    assert_eq!(slot.text, "the bay's volume has not been reported");
    assert_eq!(
        from_control(&mut slot, Err(ControlError::Send(SendError::NotConnected))),
        mxr_result_t::MXR_ERR_NOT_CONNECTED
    );
    assert_eq!(
        from_send(
            &mut slot,
            Err(SendError::ProtocolTooOld { serial: "OLD1".to_owned(), supported: 1, required: 28 })
        ),
        mxr_result_t::MXR_ERR_PROTOCOL_TOO_OLD
    );
}

#[test]
fn a_nul_in_a_message_is_not_passed_on() {
    let mut slot = LastError::new();
    assert_eq!(
        fail(&mut slot, mxr_result_t::MXR_ERR_IO, "bad\0text"),
        mxr_result_t::MXR_ERR_IO
    );
    assert_eq!(slot.text, "error text contains a NUL");
}

#[test]
fn a_string_argument_is_read_or_refused() {
    let mut slot = LastError::new();
    assert_eq!(opt_str(&mut slot, CText::Null), Ok(None));
    assert_eq!(opt_str(&mut slot, CText::Utf8("x")), Ok(Some("x")));
    assert_eq!(
        opt_str(&mut slot, CText::NotUtf8),
        Err(mxr_result_t::MXR_ERR_INVALID_ARGUMENT)
    );
    assert_eq!(slot.text, "string is not valid UTF-8");
    assert_eq!(req_str(&mut slot, CText::Utf8("y")), Ok("y"));
}

#[test]
fn a_field_keeps_what_fits_on_a_character_boundary() {
    let mut field_bytes = [0xffu8; 6];
    put_str(&mut field_bytes, "abcdef");
    assert_eq!(field_bytes, *b"abcde\0");
    let mut field_bytes = [0xffu8; 6];
    put_str(&mut field_bytes, "abcdé");
    assert_eq!(field_bytes, *b"abcd\0\0");
    let mut field_bytes = [0xffu8; 4];
    put_str(&mut field_bytes, "");
    assert_eq!(field_bytes, [0; 4]);
}

#[test]
fn a_panic_message_is_passed_on() {
    assert_eq!(panic_text(Some("boom")), "boom");
    assert_eq!(panic_text(None), "no message");
}

#[test]
fn an_unknown_source_is_recorded_with_its_name_quoted_and_escaped() {
    let mut slot = LastError::new();
    let code = from_control(&mut slot, Err(ControlError::UnknownSource("Blu\0ray".to_owned())));
    assert_eq!(code, mxr_result_t::MXR_ERR_NOT_FOUND);
    assert_eq!(slot.text, "no source named \"Blu\\0ray\"");
}
