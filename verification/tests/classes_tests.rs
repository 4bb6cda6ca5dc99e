use xgameruntime::classes::{
    query_api_route, query_api_status, runtime_class, ApiRoute, RuntimeClass, CLSID_XSTORE,
    IID_IXFEATURE,
};
use xgameruntime::hresult::{E_NOINTERFACE, E_NOTIMPL, E_POINTER, S_OK};

#[test]
fn every_class_is_found_by_its_own_id() {
    let classes = [
        RuntimeClass::Feature,
        RuntimeClass::Store,
        RuntimeClass::Networking,
        RuntimeClass::PersistentLocalStorage,
        RuntimeClass::Package,
        RuntimeClass::Async,
        RuntimeClass::GameSave,
        RuntimeClass::System,
        RuntimeClass::Game,
        RuntimeClass::GameInvite,
        RuntimeClass::GameProtocol,
        RuntimeClass::Error,
        RuntimeClass::SystemAnalytics,
        RuntimeClass::Accessibility,
        RuntimeClass::AppCapture,
        RuntimeClass::AppCaptureMetadata,
        RuntimeClass::Display,
        RuntimeClass::Launcher,
        RuntimeClass::GameActivation,
        RuntimeClass::GameEvent,
        RuntimeClass::GameStreaming,
        RuntimeClass::GameUi,
    ];
    for class in classes {
        assert_eq!(runtime_class(class.class_id()), Some(class));
    }
    assert_eq!(runtime_class(0), None);
}

#[test]
fn the_feature_class_is_asked_for_by_its_interface_id() {
    assert_eq!(runtime_class(IID_IXFEATURE), Some(RuntimeClass::Feature));
    assert_eq!(
        runtime_class(0x0dd112ac_7c24_448c_b92b_3960fb5bd30c),
        Some(RuntimeClass::Store)
    );
    assert_eq!(CLSID_XSTORE, 0x0dd112ac_7c24_448c_b92b_3960fb5bd30c);
}

#[test]
fn null_pointers_unknown_classes_and_missing_interfaces() {
    assert_eq!(query_api_route(None, true, true), ApiRoute::NullPointer);
    assert_eq!(query_api_route(Some(CLSID_XSTORE), false, true), ApiRoute::NullPointer);
    assert_eq!(query_api_route(Some(CLSID_XSTORE), true, false), ApiRoute::NullPointer);
    assert_eq!(query_api_route(Some(1), true, true), ApiRoute::Unimplemented);
    let store = query_api_route(Some(CLSID_XSTORE), true, true);
    assert_eq!(store, ApiRoute::Query(RuntimeClass::Store));
    assert_eq!(query_api_status(ApiRoute::NullPointer, false), (E_POINTER, false));
    assert_eq!(query_api_status(ApiRoute::Unimplemented, false), (E_NOTIMPL, true));
    assert_eq!(query_api_status(store, true), (S_OK, false));
    assert_eq!(query_api_status(store, false), (E_NOINTERFACE, true));
}
