//! The enumeration catalog: closed, finite domain enumerations mirroring
//! the state machines of the remote services.  The numeric and string
//! wire mappings live in [`crate::codec`]; the types here carry no
//! behaviour of their own.

use vstd::prelude::*;

verus! {

/// Overall state of the network-configuration manager.
///
/// The wire protocol assigns these variants the non-contiguous codes
/// 0, 10, 20, 30, 40, 50, 60 and 70, in declaration order.
#[derive(Clone, Copy, Debug, PartialEq, Eq, Structural)]
pub enum NetworkManagerState {
    Unknown,
    Asleep,
    Disconnected,
    Disconnecting,
    Connecting,
    ConnectedLocal,
    ConnectedSite,
    ConnectedGlobal,
}

/// Reachability of the network as reported by the manager.
/// Wire codes 0 through 4, in declaration order.
#[derive(Clone, Copy, Debug, PartialEq, Eq, Structural)]
pub enum Connectivity {
    Unknown,
    NoConnectivity,
    Portal,
    Limited,
    Full,
}

/// Activation state of a single connection profile.
/// Wire codes 0 through 4, in declaration order.
#[derive(Clone, Copy, Debug, PartialEq, Eq, Structural)]
pub enum ConnectionState {
    Unknown,
    Activating,
    Activated,
    Deactivating,
    Deactivated,
}

/// Activation state of a unit of the init/service manager, carried on
/// the wire as one of six fixed lowercase string literals.
#[derive(Clone, Copy, Debug, PartialEq, Eq, Structural)]
pub enum ServiceState {
    Active,
    Reloading,
    Inactive,
    Failed,
    Activating,
    Deactivating,
}

/// State of a network device.  The wire protocol defines no numeric
/// mapping for these variants in this layer; the enumeration is reserved
/// for callers that classify devices themselves.
#[derive(Clone, Copy, Debug, PartialEq, Eq, Structural)]
pub enum DeviceState {
    Unknown,
    Unmanaged,
    Unavailable,
    Disconnected,
    Activated,
    Deactivating,
    Failed,
}

/// Security class of a wireless network.  Classification only: no wire
/// mapping is defined in this layer.
#[derive(Clone, Copy, Debug, PartialEq, Eq, Structural)]
pub enum Security {
    NoSecurity,
    WEP,
    WPA1,
    WPA2,
}

/// Class of a network interface.  Classification only: no wire mapping
/// is defined in this layer.
#[derive(Clone, Copy, Debug, PartialEq, Eq, Structural)]
pub enum Interface {
    Unknown,
    Generic,
    Ethernet,
    WiFi,
    Bridge,
}

} // verus!
