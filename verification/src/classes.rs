//! The runtime's class registry: which class a class id names, and what `QueryApiImpl`
//! answers for a class id, an interface id and an out pointer.
//!
//! Class and interface ids are GUIDs, held here as the 128-bit number `GUID::to_u128` gives.
use vstd::prelude::*;
use crate::hresult::{E_NOINTERFACE, E_NOTIMPL, E_POINTER, S_OK};

verus! {

/// The `IXFeature` interface id, which doubles as the feature class's id.
pub const IID_IXFEATURE: u128 = 0x8836fe87_edb9_4fe3_8dad_05f0d2cd5b40u128;
pub const CLSID_XSTORE: u128 = 0x0dd112ac_7c24_448c_b92b_3960fb5bd30cu128;
pub const CLSID_XNETWORKING: u128 = 0x37e56907_2f10_41e8_b72f_36edb185331au128;
pub const CLSID_XPERSISTENT_LOCAL_STORAGE: u128 = 0xf4faf4d4_2d04_4fce_b3e0_474a713a3e84u128;
pub const CLSID_XPACKAGE: u128 = 0xaf406016_e850_4aa8_a88d_2f3dcb9dac7eu128;
pub const CLSID_XASYNC: u128 = 0x073b7dcb_1fcf_4030_94be_e3c9eb623428u128;
pub const CLSID_XGAMESAVE: u128 = 0x704c3f58_e629_4cc2_b197_30511b996fe2u128;
pub const CLSID_XSYSTEM: u128 = 0xe349bd1a_fc20_4e40_b99c_4178cc6b409fu128;
pub const CLSID_XGAME: u128 = 0x973a344e_24bf_4d0f_8457_56c534892b29u128;
pub const CLSID_XGAME_INVITE: u128 = 0x0651aae2_4012_4077_bf84_8b9097090e2cu128;
pub const CLSID_XGAME_PROTOCOL: u128 = 0x95fd18d2_74dd_4d7c_aa1b_0b51827665d6u128;
pub const CLSID_XERROR: u128 = 0x8ca467f7_22e8_4096_8456_bb8aa13f79d8u128;
pub const CLSID_XSYSTEM_ANALYTICS: u128 = 0xb884675d_b738_4a9c_815d_9a9a1e0c6c9bu128;
pub const CLSID_XACCESSIBILITY: u128 = 0x3e241977_6237_41e9_8559_102c2d9983f1u128;
pub const CLSID_XAPPCAPTURE: u128 = 0xa4f1aee2_4bf1_4485_b008_a7c26d52ac27u128;
pub const CLSID_XAPPCAPTURE_METADATA: u128 = 0x186d5592_a72d_45fb_9560_11aed0e6647au128;
pub const CLSID_XDISPLAY: u128 = 0x03f0fe74_fdd9_4e5c_b630_f9339c47acc5u128;
pub const CLSID_XLAUNCHER: u128 = 0x1b339674_328d_4283_a200_3171f18d3639u128;
pub const CLSID_XGAME_ACTIVATION: u128 = 0x7f0fe8b8_e075_49ab_9aa7_a1e065489a9eu128;
pub const CLSID_XGAME_EVENT: u128 = 0xbbfbdcc7_bfe7_409b_a5ca_edf054960b4du128;
pub const CLSID_XGAME_STREAMING: u128 = 0x0a2192aa_b2d5_4d58_83be_383b6d80799eu128;
pub const CLSID_XGAME_UI: u128 = 0xdfcd4649_4ff8_4043_ba07_35d607df98b0u128;

/// A class the runtime serves from a process-wide object.
#[derive(Clone, Copy, Debug, PartialEq, Eq, Structural)]
pub enum RuntimeClass {
    Feature,
    Store,
    Networking,
    PersistentLocalStorage,
    Package,
    Async,
    GameSave,
    System,
    Game,
    GameInvite,
    GameProtocol,
    Error,
    SystemAnalytics,
    Accessibility,
    AppCapture,
    AppCaptureMetadata,
    Display,
    Launcher,
    GameActivation,
    GameEvent,
    GameStreaming,
    GameUi,
}

/// The class a class id names, if the runtime serves it.
pub open spec fn class_of(class_id: u128) -> Option<RuntimeClass> {
    if class_id == IID_IXFEATURE {
        Some(RuntimeClass::Feature)
    } else if class_id == CLSID_XSTORE {
        Some(RuntimeClass::Store)
    } else if class_id == CLSID_XNETWORKING {
        Some(RuntimeClass::Networking)
    } else if class_id == CLSID_XPERSISTENT_LOCAL_STORAGE {
        Some(RuntimeClass::PersistentLocalStorage)
    } else if class_id == CLSID_XPACKAGE {
        Some(RuntimeClass::Package)
    } else if class_id == CLSID_XASYNC {
        Some(RuntimeClass::Async)
    } else if class_id == CLSID_XGAMESAVE {
        Some(RuntimeClass::GameSave)
    } else if class_id == CLSID_XSYSTEM {
        Some(RuntimeClass::System)
    } else if class_id == CLSID_XGAME {
        Some(RuntimeClass::Game)
    } else if class_id == CLSID_XGAME_INVITE {
        Some(RuntimeClass::GameInvite)
    } else if class_id == CLSID_XGAME_PROTOCOL {
        Some(RuntimeClass::GameProtocol)
    } else if class_id == CLSID_XERROR {
        Some(RuntimeClass::Error)
    } else if class_id == CLSID_XSYSTEM_ANALYTICS {
        Some(RuntimeClass::SystemAnalytics)
    } else if class_id == CLSID_XACCESSIBILITY {
        Some(RuntimeClass::Accessibility)
    } else if class_id == CLSID_XAPPCAPTURE {
        Some(RuntimeClass::AppCapture)
    } else if class_id == CLSID_XAPPCAPTURE_METADATA {
        Some(RuntimeClass::AppCaptureMetadata)
    } else if class_id == CLSID_XDISPLAY {
        Some(RuntimeClass::Display)
    } else if class_id == CLSID_XLAUNCHER {
        Some(RuntimeClass::Launcher)
    } else if class_id == CLSID_XGAME_ACTIVATION {
        Some(RuntimeClass::GameActivation)
    } else if class_id == CLSID_XGAME_EVENT {
        Some(RuntimeClass::GameEvent)
    } else if class_id == CLSID_XGAME_STREAMING {
        Some(RuntimeClass::GameStreaming)
    } else if class_id == CLSID_XGAME_UI {
        Some(RuntimeClass::GameUi)
    } else {
        None
    }
}

/// The id of a class.
pub open spec fn class_id_of(class: RuntimeClass) -> u128 {
    match class {
        RuntimeClass::Feature => IID_IXFEATURE,
        RuntimeClass::Store => CLSID_XSTORE,
        RuntimeClass::Networking => CLSID_XNETWORKING,
        RuntimeClass::PersistentLocalStorage => CLSID_XPERSISTENT_LOCAL_STORAGE,
        RuntimeClass::Package => CLSID_XPACKAGE,
        RuntimeClass::Async => CLSID_XASYNC,
        RuntimeClass::GameSave => CLSID_XGAMESAVE,
        RuntimeClass::System => CLSID_XSYSTEM,
        RuntimeClass::Game => CLSID_XGAME,
        RuntimeClass::GameInvite => CLSID_XGAME_INVITE,
        RuntimeClass::GameProtocol => CLSID_XGAME_PROTOCOL,
        RuntimeClass::Error => CLSID_XERROR,
        RuntimeClass::SystemAnalytics => CLSID_XSYSTEM_ANALYTICS,
        RuntimeClass::Accessibility => CLSID_XACCESSIBILITY,
        RuntimeClass::AppCapture => CLSID_XAPPCAPTURE,
        RuntimeClass::AppCaptureMetadata => CLSID_XAPPCAPTURE_METADATA,
        RuntimeClass::Display => CLSID_XDISPLAY,
        RuntimeClass::Launcher => CLSID_XLAUNCHER,
        RuntimeClass::GameActivation => CLSID_XGAME_ACTIVATION,
        RuntimeClass::GameEvent => CLSID_XGAME_EVENT,
        RuntimeClass::GameStreaming => CLSID_XGAME_STREAMING,
        RuntimeClass::GameUi => CLSID_XGAME_UI,
    }
}

impl RuntimeClass {
    /// The id this class is asked for by.
    pub fn class_id(self) -> (id: u128)
        ensures
            id == class_id_of(self),
    {
        match self {
            RuntimeClass::Feature => IID_IXFEATURE,
            RuntimeClass::Store => CLSID_XSTORE,
            RuntimeClass::Networking => CLSID_XNETWORKING,
            RuntimeClass::PersistentLocalStorage => CLSID_XPERSISTENT_LOCAL_STORAGE,
            RuntimeClass::Package => CLSID_XPACKAGE,
            RuntimeClass::Async => CLSID_XASYNC,
            RuntimeClass::GameSave => CLSID_XGAMESAVE,
            RuntimeClass::System => CLSID_XSYSTEM,
            RuntimeClass::Game => CLSID_XGAME,
            RuntimeClass::GameInvite => CLSID_XGAME_INVITE,
            RuntimeClass::GameProtocol => CLSID_XGAME_PROTOCOL,
            RuntimeClass::Error => CLSID_XERROR,
            RuntimeClass::SystemAnalytics => CLSID_XSYSTEM_ANALYTICS,
            RuntimeClass::Accessibility => CLSID_XACCESSIBILITY,
            RuntimeClass::AppCapture => CLSID_XAPPCAPTURE,
            RuntimeClass::AppCaptureMetadata => CLSID_XAPPCAPTURE_METADATA,
            RuntimeClass::Display => CLSID_XDISPLAY,
            RuntimeClass::Launcher => CLSID_XLAUNCHER,
            RuntimeClass::GameActivation => CLSID_XGAME_ACTIVATION,
            RuntimeClass::GameEvent => CLSID_XGAME_EVENT,
            RuntimeClass::GameStreaming => CLSID_XGAME_STREAMING,
            RuntimeClass::GameUi => CLSID_XGAME_UI,
        }
    }
}

/// The class a class id names, if the runtime serves it.
pub fn runtime_class(class_id: u128) -> (class: Option<RuntimeClass>)
    ensures
        class == class_of(class_id),
{
    if class_id == IID_IXFEATURE {
        Some(RuntimeClass::Feature)
    } else if class_id == CLSID_XSTORE {
        Some(RuntimeClass::Store)
    } else if class_id == CLSID_XNETWORKING {
        Some(RuntimeClass::Networking)
    } else if class_id == CLSID_XPERSISTENT_LOCAL_STORAGE {
        Some(RuntimeClass::PersistentLocalStorage)
    } else if class_id == CLSID_XPACKAGE {
        Some(RuntimeClass::Package)
    } else if class_id == CLSID_XASYNC {
        Some(RuntimeClass::Async)
    } else if class_id == CLSID_XGAMESAVE {
        Some(RuntimeClass::GameSave)
    } else if class_id == CLSID_XSYSTEM {
        Some(RuntimeClass::System)
    } else if class_id == CLSID_XGAME {
        Some(RuntimeClass::Game)
    } else if class_id == CLSID_XGAME_INVITE {
        Some(RuntimeClass::GameInvite)
    } else if class_id == CLSID_XGAME_PROTOCOL {
        Some(RuntimeClass::GameProtocol)
    } else if class_id == CLSID_XERROR {
        Some(RuntimeClass::Error)
    } else if class_id == CLSID_XSYSTEM_ANALYTICS {
        Some(RuntimeClass::SystemAnalytics)
    } else if class_id == CLSID_XACCESSIBILITY {
        Some(RuntimeClass::Accessibility)
    } else if class_id == CLSID_XAPPCAPTURE {
        Some(RuntimeClass::AppCapture)
    } else if class_id == CLSID_XAPPCAPTURE_METADATA {
        Some(RuntimeClass::AppCaptureMetadata)
    } else if class_id == CLSID_XDISPLAY {
        Some(RuntimeClass::Display)
    } else if class_id == CLSID_XLAUNCHER {
        Some(RuntimeClass::Launcher)
    } else if class_id == CLSID_XGAME_ACTIVATION {
        Some(RuntimeClass::GameActivation)
    } else if class_id == CLSID_XGAME_EVENT {
        Some(RuntimeClass::GameEvent)
    } else if class_id == CLSID_XGAME_STREAMING {
        Some(RuntimeClass::GameStreaming)
    } else if class_id == CLSID_XGAME_UI {
        Some(RuntimeClass::GameUi)
    } else {
        None
    }
}

/// Every served class is found again by its own id, so no two classes share an id.
pub proof fn lemma_class_id_round_trip(class: RuntimeClass)
    ensures
        class_of(class_id_of(class)) == Some(class),
{
}

/// Each served class id names its own class, and each class is asked for by its own id: the
/// XGameSave id (`704C3F58-E629-4CC2-B197-30511B996FE2`) finds the save store, the XSystem id
/// (`E349BD1A-FC20-4E40-B99C-4178CC6B409F`) the console-identity object, and so on for every
/// id the runtime serves. Whatever id a class is found by is that class's own id.
pub proof fn lemma_each_class_id_names_its_own_class(class_id: u128)
    ensures
        class_of(0x8836fe87_edb9_4fe3_8dad_05f0d2cd5b40u128) == Some(RuntimeClass::Feature),
        class_id_of(RuntimeClass::Feature) == 0x8836fe87_edb9_4fe3_8dad_05f0d2cd5b40u128,
        class_of(0x0dd112ac_7c24_448c_b92b_3960fb5bd30cu128) == Some(RuntimeClass::Store),
        class_id_of(RuntimeClass::Store) == 0x0dd112ac_7c24_448c_b92b_3960fb5bd30cu128,
        class_of(0x37e56907_2f10_41e8_b72f_36edb185331au128) == Some(RuntimeClass::Networking),
        class_id_of(RuntimeClass::Networking) == 0x37e56907_2f10_41e8_b72f_36edb185331au128,
        class_of(0xf4faf4d4_2d04_4fce_b3e0_474a713a3e84u128) == Some(RuntimeClass::PersistentLocalStorage),
        class_id_of(RuntimeClass::PersistentLocalStorage) == 0xf4faf4d4_2d04_4fce_b3e0_474a713a3e84u128,
        class_of(0xaf406016_e850_4aa8_a88d_2f3dcb9dac7eu128) == Some(RuntimeClass::Package),
        class_id_of(RuntimeClass::Package) == 0xaf406016_e850_4aa8_a88d_2f3dcb9dac7eu128,
        class_of(0x073b7dcb_1fcf_4030_94be_e3c9eb623428u128) == Some(RuntimeClass::Async),
        class_id_of(RuntimeClass::Async) == 0x073b7dcb_1fcf_4030_94be_e3c9eb623428u128,
        class_of(0x704c3f58_e629_4cc2_b197_30511b996fe2u128) == Some(RuntimeClass::GameSave),
        class_id_of(RuntimeClass::GameSave) == 0x704c3f58_e629_4cc2_b197_30511b996fe2u128,
        class_of(0xe349bd1a_fc20_4e40_b99c_4178cc6b409fu128) == Some(RuntimeClass::System),
        class_id_of(RuntimeClass::System) == 0xe349bd1a_fc20_4e40_b99c_4178cc6b409fu128,
        class_of(0x973a344e_24bf_4d0f_8457_56c534892b29u128) == Some(RuntimeClass::Game),
        class_id_of(RuntimeClass::Game) == 0x973a344e_24bf_4d0f_8457_56c534892b29u128,
        class_of(0x0651aae2_4012_4077_bf84_8b9097090e2cu128) == Some(RuntimeClass::GameInvite),
        class_id_of(RuntimeClass::GameInvite) == 0x0651aae2_4012_4077_bf84_8b9097090e2cu128,
        class_of(0x95fd18d2_74dd_4d7c_aa1b_0b51827665d6u128) == Some(RuntimeClass::GameProtocol),
        class_id_of(RuntimeClass::GameProtocol) == 0x95fd18d2_74dd_4d7c_aa1b_0b51827665d6u128,
        class_of(0x8ca467f7_22e8_4096_8456_bb8aa13f79d8u128) == Some(RuntimeClass::Error),
        class_id_of(RuntimeClass::Error) == 0x8ca467f7_22e8_4096_8456_bb8aa13f79d8u128,
        class_of(0xb884675d_b738_4a9c_815d_9a9a1e0c6c9bu128) == Some(RuntimeClass::SystemAnalytics),
        class_id_of(RuntimeClass::SystemAnalytics) == 0xb884675d_b738_4a9c_815d_9a9a1e0c6c9bu128,
        class_of(0x3e241977_6237_41e9_8559_102c2d9983f1u128) == Some(RuntimeClass::Accessibility),
        class_id_of(RuntimeClass::Accessibility) == 0x3e241977_6237_41e9_8559_102c2d9983f1u128,
        class_of(0xa4f1aee2_4bf1_4485_b008_a7c26d52ac27u128) == Some(RuntimeClass::AppCapture),
        class_id_of(RuntimeClass::AppCapture) == 0xa4f1aee2_4bf1_4485_b008_a7c26d52ac27u128,
        class_of(0x186d5592_a72d_45fb_9560_11aed0e6647au128) == Some(RuntimeClass::AppCaptureMetadata),
        class_id_of(RuntimeClass::AppCaptureMetadata) == 0x186d5592_a72d_45fb_9560_11aed0e6647au128,
        class_of(0x03f0fe74_fdd9_4e5c_b630_f9339c47acc5u128) == Some(RuntimeClass::Display),
        class_id_of(RuntimeClass::Display) == 0x03f0fe74_fdd9_4e5c_b630_f9339c47acc5u128,
        class_of(0x1b339674_328d_4283_a200_3171f18d3639u128) == Some(RuntimeClass::Launcher),
        class_id_of(RuntimeClass::Launcher) == 0x1b339674_328d_4283_a200_3171f18d3639u128,
        class_of(0x7f0fe8b8_e075_49ab_9aa7_a1e065489a9eu128) == Some(RuntimeClass::GameActivation),
        class_id_of(RuntimeClass::GameActivation) == 0x7f0fe8b8_e075_49ab_9aa7_a1e065489a9eu128,
        class_of(0xbbfbdcc7_bfe7_409b_a5ca_edf054960b4du128) == Some(RuntimeClass::GameEvent),
        class_id_of(RuntimeClass::GameEvent) == 0xbbfbdcc7_bfe7_409b_a5ca_edf054960b4du128,
        class_of(0x0a2192aa_b2d5_4d58_83be_383b6d80799eu128) == Some(RuntimeClass::GameStreaming),
        class_id_of(RuntimeClass::GameStreaming) == 0x0a2192aa_b2d5_4d58_83be_383b6d80799eu128,
        class_of(0xdfcd4649_4ff8_4043_ba07_35d607df98b0u128) == Some(RuntimeClass::GameUi),
        class_id_of(RuntimeClass::GameUi) == 0xdfcd4649_4ff8_4043_ba07_35d607df98b0u128,
        class_of(class_id) matches Some(class) ==> class_id_of(class) == class_id,
{
}

/// What `QueryApiImpl` does with its three pointers before any object is asked anything.
#[derive(Clone, Copy, Debug, PartialEq, Eq, Structural)]
pub enum ApiRoute {
    /// A pointer was null: `E_POINTER`, nothing written.
    NullPointer,
    /// The class is not served: `E_NOTIMPL`, and the out pointer is cleared.
    Unimplemented,
    /// Ask the class's object for the interface.
    Query(RuntimeClass),
}

/// The route `QueryApiImpl` takes for a class id (`None` when its pointer is null), whether
/// the interface id and out pointers are non-null.
pub open spec fn api_route_for(class_id: Option<u128>, has_interface: bool, has_out: bool) -> ApiRoute {
    match class_id {
        None => ApiRoute::NullPointer,
        Some(id) => if !has_interface || !has_out {
            ApiRoute::NullPointer
        } else {
            match class_of(id) {
                Some(class) => ApiRoute::Query(class),
                None => ApiRoute::Unimplemented,
            }
        },
    }
}

/// Decides the route of a `QueryApiImpl` call.
pub fn query_api_route(class_id: Option<u128>, has_interface: bool, has_out: bool) -> (route:
    ApiRoute)
    ensures
        route == api_route_for(class_id, has_interface, has_out),
{
    match class_id {
        None => ApiRoute::NullPointer,
        Some(id) => {
            if !has_interface || !has_out {
                ApiRoute::NullPointer
            } else {
                match runtime_class(id) {
                    Some(class) => ApiRoute::Query(class),
                    None => ApiRoute::Unimplemented,
                }
            }
        },
    }
}

/// The status of a `QueryApiImpl` call that took `route`, where `found` says whether the
/// class's object had the interface (asked only on a `Query` route); and whether the out
/// pointer is to be cleared.
pub fn query_api_status(route: ApiRoute, found: bool) -> (answer: (i32, bool))
    ensures
        route is NullPointer ==> answer == (E_POINTER, false),
        route is Unimplemented ==> answer == (E_NOTIMPL, true),
        route is Query && found ==> answer == (S_OK, false),
        route is Query && !found ==> answer == (E_NOINTERFACE, true),
{
    match route {
        ApiRoute::NullPointer => (E_POINTER, false),
        ApiRoute::Unimplemented => (E_NOTIMPL, true),
        ApiRoute::Query(_) => {
            if found {
                (S_OK, false)
            } else {
                (E_NOINTERFACE, true)
            }
        },
    }
}

} // verus!
