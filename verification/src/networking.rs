//! `XNetworking`: the connectivity hint every caller is given, and the URL security
//! information query.
use vstd::prelude::*;
use crate::hresult::{E_FAIL, E_POINTER, S_OK};

verus! {

/// `XNetworkingConnectivityCostHint`.
#[derive(Clone, Copy, Debug, PartialEq, Eq, Structural)]
pub enum XNetworkingConnectivityCostHint {
    Unknown,
    Unrestricted,
    Fixed,
    Variable,
}

impl XNetworkingConnectivityCostHint {
    /// The value this hint has in the ABI.
    pub fn as_raw(self) -> (raw: u32)
        ensures
            raw == match self {
                XNetworkingConnectivityCostHint::Unknown => 0u32,
                XNetworkingConnectivityCostHint::Unrestricted => 1,
                XNetworkingConnectivityCostHint::Fixed => 2,
                XNetworkingConnectivityCostHint::Variable => 3,
            },
    {
        match self {
            XNetworkingConnectivityCostHint::Unknown => 0,
            XNetworkingConnectivityCostHint::Unrestricted => 1,
            XNetworkingConnectivityCostHint::Fixed => 2,
            XNetworkingConnectivityCostHint::Variable => 3,
        }
    }
}

/// `XNetworkingConnectivityLevelHint`.
#[derive(Clone, Copy, Debug, PartialEq, Eq, Structural)]
pub enum XNetworkingConnectivityLevelHint {
    Unknown,
    NoNetwork,
    LocalAccess,
    InternetAccess,
    ConstrainedInternetAccess,
}

impl XNetworkingConnectivityLevelHint {
    /// The value this hint has in the ABI.
    pub fn as_raw(self) -> (raw: u32)
        ensures
            raw == match self {
                XNetworkingConnectivityLevelHint::Unknown => 0u32,
                XNetworkingConnectivityLevelHint::NoNetwork => 1,
                XNetworkingConnectivityLevelHint::LocalAccess => 2,
                XNetworkingConnectivityLevelHint::InternetAccess => 3,
                XNetworkingConnectivityLevelHint::ConstrainedInternetAccess => 4,
            },
    {
        match self {
            XNetworkingConnectivityLevelHint::Unknown => 0,
            XNetworkingConnectivityLevelHint::NoNetwork => 1,
            XNetworkingConnectivityLevelHint::LocalAccess => 2,
            XNetworkingConnectivityLevelHint::InternetAccess => 3,
            XNetworkingConnectivityLevelHint::ConstrainedInternetAccess => 4,
        }
    }
}

/// `XNetworkingConnectivityHint`.
#[derive(Clone, Copy, Debug, PartialEq, Eq, Structural)]
pub struct XNetworkingConnectivityHint {
    pub connectivity_level: XNetworkingConnectivityLevelHint,
    pub connectivity_cost: XNetworkingConnectivityCostHint,
    pub iana_interface_type: u32,
    pub network_initialized: bool,
    pub approaching_data_limit: bool,
    pub over_data_limit: bool,
    pub roaming: bool,
}

/// The hint every caller gets: initialized, unmetered internet access over Ethernet (IANA
/// interface type 6), within any data limit and not roaming.
pub open spec fn online_hint() -> XNetworkingConnectivityHint {
    XNetworkingConnectivityHint {
        connectivity_level: XNetworkingConnectivityLevelHint::InternetAccess,
        connectivity_cost: XNetworkingConnectivityCostHint::Unrestricted,
        iana_interface_type: 6,
        network_initialized: true,
        approaching_data_limit: false,
        over_data_limit: false,
        roaming: false,
    }
}

/// The HTTP security protocols every URL is reported to allow: TLS 1.0, 1.1, 1.2 and 1.3.
pub const SECURE_PROTOCOL_FLAGS: u32 = 0x2a80u32;

/// `XNetworkingSecurityInformation`, with no thumbprints.
#[derive(Clone, Copy, Debug, PartialEq, Eq, Structural)]
pub struct XNetworkingSecurityInformation {
    pub enabled_http_security_protocol_flags: u32,
    pub thumbprint_count: usize,
}

/// `IXNetworking`, the networking interface.
pub trait IXNetworking {}

/// `IXNetworking2`: another interface id for `IXNetworking`, with no methods of its own.
pub trait IXNetworking2: IXNetworking {}

/// `XNetworking`, the networking class.
pub struct XNetworkingObject;

impl IXNetworking for XNetworkingObject {}

impl IXNetworking2 for XNetworkingObject {}

impl XNetworkingObject {
    /// `XNetworkingGetConnectivityHint`: `E_POINTER` without an out-pointer, else the hint.
    pub fn connectivity_hint(&self, has_out: bool) -> (answer: (i32, Option<
        XNetworkingConnectivityHint,
    >))
        ensures
            !has_out ==> answer == (E_POINTER, None::<XNetworkingConnectivityHint>),
            has_out ==> answer == (S_OK, Some(online_hint())),
    {
        if !has_out {
            return (E_POINTER, None);
        }
        (S_OK, Some(self.current_hint()))
    }

    /// The hint a `XNetworkingRegisterConnectivityHintChanged` callback is called with, once,
    /// at registration.
    pub fn current_hint(&self) -> (hint: XNetworkingConnectivityHint)
        ensures
            hint == online_hint(),
    {
        XNetworkingConnectivityHint {
            connectivity_level: XNetworkingConnectivityLevelHint::InternetAccess,
            connectivity_cost: XNetworkingConnectivityCostHint::Unrestricted,
            iana_interface_type: 6,
            network_initialized: true,
            approaching_data_limit: false,
            over_data_limit: false,
            roaming: false,
        }
    }

    /// `XNetworkingVerifyServerCertificate`: every certificate is accepted.
    pub fn verify_server_certificate(&self) -> (hr: i32)
        ensures
            hr == S_OK,
    {
        S_OK
    }

    /// `XNetworkingRegisterConnectivityHintChanged`: succeeds, calling a given callback once
    /// with the current hint.
    pub fn register_connectivity_hint_changed(&self, has_callback: bool) -> (answer: (i32, Option<
        XNetworkingConnectivityHint,
    >))
        ensures
            has_callback ==> answer == (S_OK, Some(online_hint())),
            !has_callback ==> answer == (S_OK, None::<XNetworkingConnectivityHint>),
    {
        if has_callback {
            (S_OK, Some(self.current_hint()))
        } else {
            (S_OK, None)
        }
    }

    /// The security information every URL query completes with.
    pub fn security_information(&self) -> (info: XNetworkingSecurityInformation)
        ensures
            info.enabled_http_security_protocol_flags == 0x0000_0080u32 | 0x0000_0200u32
                | 0x0000_0800u32 | 0x0000_2000u32,
            info.thumbprint_count == 0,
    {
        let flags: u32 = 0x0000_0080u32 | 0x0000_0200u32 | 0x0000_0800u32 | 0x0000_2000u32;
        XNetworkingSecurityInformation {
            enabled_http_security_protocol_flags: flags,
            thumbprint_count: 0,
        }
    }

    /// `XNetworkingQuerySecurityInformationForUrl*AsyncResult`'s buffer check: a buffer
    /// smaller than the information it receives is `E_FAIL`.
    pub fn security_result_check(&self, buffer_size: u64, info_size: u64) -> (hr: i32)
        ensures
            hr == if buffer_size < info_size {
                E_FAIL
            } else {
                S_OK
            },
    {
        if buffer_size < info_size {
            E_FAIL
        } else {
            S_OK
        }
    }
}

/// The four protocol flags together are `SECURE_PROTOCOL_FLAGS`.
pub proof fn lemma_secure_protocol_flags()
    ensures
        0x0000_0080u32 | 0x0000_0200u32 | 0x0000_0800u32 | 0x0000_2000u32 == SECURE_PROTOCOL_FLAGS,
{
    assert(0x0000_0080u32 | 0x0000_0200u32 | 0x0000_0800u32 | 0x0000_2000u32 == 0x2a80u32) by (bit_vector);
}

} // verus!
