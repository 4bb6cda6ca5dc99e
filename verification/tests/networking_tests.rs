use xgameruntime::hresult::{E_FAIL, E_POINTER, S_OK};
use xgameruntime::networking::{
    XNetworkingConnectivityCostHint, XNetworkingConnectivityLevelHint, XNetworkingObject,
    SECURE_PROTOCOL_FLAGS,
};

#[test]
fn every_caller_is_told_it_is_online() {
    let networking = XNetworkingObject;
    assert_eq!(networking.connectivity_hint(false), (E_POINTER, None));
    let (hr, hint) = networking.connectivity_hint(true);
    assert_eq!(hr, S_OK);
    let hint = hint.unwrap();
    assert_eq!(hint.connectivity_level, XNetworkingConnectivityLevelHint::InternetAccess);
    assert_eq!(hint.connectivity_level.as_raw(), 3);
    assert_eq!(hint.connectivity_cost.as_raw(), 1);
    assert_eq!(hint.iana_interface_type, 6);
    assert!(hint.network_initialized && !hint.roaming && !hint.over_data_limit);
    assert_eq!(XNetworkingConnectivityCostHint::Variable.as_raw(), 3);
    assert_eq!(XNetworkingConnectivityLevelHint::NoNetwork.as_raw(), 1);
}

#[test]
fn a_registration_is_called_back_once_with_the_hint() {
    let networking = XNetworkingObject;
    assert_eq!(networking.register_connectivity_hint_changed(false), (S_OK, None));
    let (hr, hint) = networking.register_connectivity_hint_changed(true);
    assert_eq!(hr, S_OK);
    assert_eq!(hint, Some(networking.current_hint()));
    assert_eq!(networking.verify_server_certificate(), S_OK);
}

#[test]
fn urls_allow_modern_tls_and_small_buffers_fail() {
    let networking = XNetworkingObject;
    let info = networking.security_information();
    assert_eq!(info.enabled_http_security_protocol_flags, SECURE_PROTOCOL_FLAGS);
    assert_eq!(info.thumbprint_count, 0);
    assert_eq!(networking.security_result_check(8, 24), E_FAIL);
    assert_eq!(networking.security_result_check(24, 24), S_OK);
}
