use xgameruntime::hresult::{E_NOTIMPL, E_NOT_SUFFICIENT_BUFFER, E_POINTER, S_OK};
use xgameruntime::system::{
    device_id_text, parse_title_id_from_config, DeviceIdCache, IXFeature, XError, XFeature, XGame, XGameInvite,
    XGameProtocol, XSystem, XSystemAnalytics, XSystemAnalyticsInfo, XVersion,
};

#[test]
fn the_title_id_is_read_from_the_config() {
    let config = "<Game><Identity/><TitleId>  6A1B2C3D\n</TitleId></Game>";
    assert_eq!(parse_title_id_from_config(config), Some(0x6A1B2C3D));
    assert_eq!(
        parse_title_id_from_config("<TitleId attr=\"x\">0000ABCD</TitleId>"),
        Some(0xABCD)
    );
    assert_eq!(parse_title_id_from_config("<TitleId>+1234567</TitleId>"), Some(0x1234567));
}

#[test]
fn a_title_id_of_the_wrong_length_or_digits_is_none() {
    assert_eq!(parse_title_id_from_config("<TitleId>ABC</TitleId>"), None);
    assert_eq!(parse_title_id_from_config("<TitleId>XYZ12345</TitleId>"), None);
    assert_eq!(parse_title_id_from_config("<TitleId>12345678"), None);
    assert_eq!(parse_title_id_from_config("no id here"), None);
}

#[test]
fn the_title_id_is_answered_or_not_implemented() {
    let game = XGame;
    assert_eq!(game.xbox_title_id(Some(7)), (S_OK, 7));
    assert_eq!(game.xbox_title_id(None), (E_NOTIMPL, 0));
    assert_eq!(game.launch_restart_on_crash(), E_NOTIMPL);
}

#[test]
fn the_console_id_needs_both_pointers_and_room() {
    let system = XSystem;
    let missing_used = system.console_id(39, true, false);
    assert_eq!(missing_used.hr, E_POINTER);
    let small = system.console_id(38, true, true);
    assert_eq!(small.hr, E_NOT_SUFFICIENT_BUFFER);
    assert_eq!(small.used, Some(39));
    let good = system.console_id(64, true, true);
    assert_eq!(good.hr, S_OK);
    assert_eq!(
        good.bytes.unwrap(),
        b"00000000.00000000.00000000.00000000.00\0".to_vec()
    );
}

#[test]
fn the_sandbox_is_retail() {
    let system = XSystem;
    let id = system.sandbox_id(16, true, true);
    assert_eq!(id.hr, S_OK);
    assert_eq!(id.used, Some(7));
    assert_eq!(id.bytes.unwrap(), b"RETAIL\0".to_vec());
    assert_eq!(system.sandbox_id(15, true, true).hr, E_NOT_SUFFICIENT_BUFFER);
    assert_eq!(system.sandbox_id(16, false, true).hr, E_POINTER);
}

#[test]
fn the_device_id_is_truncated_to_the_buffer() {
    let system = XSystem;
    let copy = system.app_specific_device_id(b"abcd", 3, true, true);
    assert_eq!(copy.hr, S_OK);
    assert_eq!(copy.used, Some(5));
    assert_eq!(copy.bytes.unwrap(), b"abc".to_vec());
    let whole = system.app_specific_device_id(b"abcd", 10, true, false);
    assert_eq!(whole.bytes.unwrap(), b"abcd\0".to_vec());
    assert!(system.app_specific_device_id(b"abcd", 0, true, false).bytes.is_none());
}

#[test]
fn a_device_id_is_formatted_like_a_guid() {
    assert_eq!(
        device_id_text(0x0123_4567_89ab_cdef, 0xfedc_ba98_7654_3210),
        "01234567-89ab-cdef-fedc-ba9876543210"
    );
    assert_eq!(device_id_text(0, 0), "00000000-0000-0000-0000-000000000000");
}

#[test]
fn fixed_answers_of_the_small_classes() {
    assert!(XFeature.is_feature_available(12));
    assert_eq!(XError.unknown_method0(), E_NOTIMPL);
    assert_eq!(XGameInvite.register_for_event(), (S_OK, 0));
    assert_eq!(XGameInvite.accept_pending_invite(), E_NOTIMPL);
    assert_eq!(XGameProtocol.register_for_activation(), (S_OK, 0));
    assert_eq!(XSystem.is_handle_valid(), 1);
    assert_eq!(XSystem.handle_track(), E_NOTIMPL);
}

#[test]
fn analytics_report_a_windows_desktop() {
    let zero = XVersion { major: 0, minor: 0, build: 0, revision: 0 };
    let mut info = XSystemAnalyticsInfo {
        os_version: zero,
        hosting_os_version: zero,
        family: [0xff; 64],
        form: [0xff; 64],
    };
    XSystemAnalytics.fill_analytics_info(&mut info);
    assert_eq!(info.os_version, XVersion { major: 10, minor: 0, build: 19045, revision: 0 });
    assert_eq!(&info.family[..8], b"Windows\0");
    assert_eq!(&info.form[..8], b"Desktop\0");
    assert_eq!(info.family[8], 0xff);
}

#[test]
fn the_device_id_is_generated_once_and_then_kept() {
    let mut cache = DeviceIdCache::new();
    let first = cache.get_or_init(0x0123_4567_89ab_cdef, 0xfedc_ba98_7654_3210);
    assert_eq!(first, device_id_text(0x0123_4567_89ab_cdef, 0xfedc_ba98_7654_3210));
    assert_eq!(first.len(), 36);
    let second = cache.get_or_init(1, 2);
    assert_eq!(first, second);
    let copy = XSystem.app_specific_device_id(second.as_bytes(), 64, true, true);
    assert_eq!(copy.hr, S_OK);
    assert_eq!(copy.used, Some(37));
}
