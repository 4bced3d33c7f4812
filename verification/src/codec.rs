//! The wire value codec: bidirectional conversion between each domain
//! enumeration and its wire representation.  Conversion is total on the
//! domain (`*_wire`, [`ServiceState::as_str`]) and partial on the wire
//! (`*_of_wire`, [`ServiceState::from_str`]): a wire value outside the
//! defined set is a hard [`QueryError::InvalidEnumValue`] failure, never
//! a silent fallback variant.

use vstd::prelude::*;
use vstd::string::StringExecFns;

use crate::error::{EnumKind, QueryError, WireValue};
use crate::states::{ConnectionState, Connectivity, NetworkManagerState, ServiceState};

verus! {

/// The wire code of a manager state: the protocol's non-contiguous
/// multiples of ten.
pub open spec fn manager_state_wire(v: NetworkManagerState) -> u32 {
    match v {
        NetworkManagerState::Unknown => 0u32,
        NetworkManagerState::Asleep => 10u32,
        NetworkManagerState::Disconnected => 20u32,
        NetworkManagerState::Disconnecting => 30u32,
        NetworkManagerState::Connecting => 40u32,
        NetworkManagerState::ConnectedLocal => 50u32,
        NetworkManagerState::ConnectedSite => 60u32,
        NetworkManagerState::ConnectedGlobal => 70u32,
    }
}

/// The manager state a wire code denotes, if any.
pub open spec fn manager_state_of_wire(raw: u32) -> Option<NetworkManagerState> {
    if raw == 0 {
        Some(NetworkManagerState::Unknown)
    } else if raw == 10 {
        Some(NetworkManagerState::Asleep)
    } else if raw == 20 {
        Some(NetworkManagerState::Disconnected)
    } else if raw == 30 {
        Some(NetworkManagerState::Disconnecting)
    } else if raw == 40 {
        Some(NetworkManagerState::Connecting)
    } else if raw == 50 {
        Some(NetworkManagerState::ConnectedLocal)
    } else if raw == 60 {
        Some(NetworkManagerState::ConnectedSite)
    } else if raw == 70 {
        Some(NetworkManagerState::ConnectedGlobal)
    } else {
        None
    }
}

/// What decoding a manager-state wire code returns: the variant, or the
/// exact error quoting the unmapped code.
pub open spec fn manager_state_decode(raw: u32) -> Result<NetworkManagerState, QueryError> {
    match manager_state_of_wire(raw) {
        Some(v) => Ok(v),
        None => Err(
            QueryError::InvalidEnumValue { kind: EnumKind::ManagerState, raw: WireValue::Num(raw) },
        ),
    }
}

/// The wire code of a connectivity level: 0 through 4 in declaration
/// order.
pub open spec fn connectivity_wire(v: Connectivity) -> u32 {
    match v {
        Connectivity::Unknown => 0u32,
        Connectivity::NoConnectivity => 1u32,
        Connectivity::Portal => 2u32,
        Connectivity::Limited => 3u32,
        Connectivity::Full => 4u32,
    }
}

/// The connectivity level a wire code denotes, if any.
pub open spec fn connectivity_of_wire(raw: u32) -> Option<Connectivity> {
    if raw == 0 {
        Some(Connectivity::Unknown)
    } else if raw == 1 {
        Some(Connectivity::NoConnectivity)
    } else if raw == 2 {
        Some(Connectivity::Portal)
    } else if raw == 3 {
        Some(Connectivity::Limited)
    } else if raw == 4 {
        Some(Connectivity::Full)
    } else {
        None
    }
}

/// What decoding a connectivity wire code returns.
pub open spec fn connectivity_decode(raw: u32) -> Result<Connectivity, QueryError> {
    match connectivity_of_wire(raw) {
        Some(v) => Ok(v),
        None => Err(
            QueryError::InvalidEnumValue { kind: EnumKind::Connectivity, raw: WireValue::Num(raw) },
        ),
    }
}

/// The wire code of a connection state: 0 through 4 in declaration
/// order.
pub open spec fn connection_state_wire(v: ConnectionState) -> u32 {
    match v {
        ConnectionState::Unknown => 0u32,
        ConnectionState::Activating => 1u32,
        ConnectionState::Activated => 2u32,
        ConnectionState::Deactivating => 3u32,
        ConnectionState::Deactivated => 4u32,
    }
}

/// The connection state a wire code denotes, if any.
pub open spec fn connection_state_of_wire(raw: u32) -> Option<ConnectionState> {
    if raw == 0 {
        Some(ConnectionState::Unknown)
    } else if raw == 1 {
        Some(ConnectionState::Activating)
    } else if raw == 2 {
        Some(ConnectionState::Activated)
    } else if raw == 3 {
        Some(ConnectionState::Deactivating)
    } else if raw == 4 {
        Some(ConnectionState::Deactivated)
    } else {
        None
    }
}

/// What decoding a connection-state wire code returns.
pub open spec fn connection_state_decode(raw: u32) -> Result<ConnectionState, QueryError> {
    match connection_state_of_wire(raw) {
        Some(v) => Ok(v),
        None => Err(
            QueryError::InvalidEnumValue {
                kind: EnumKind::ConnectionState,
                raw: WireValue::Num(raw),
            },
        ),
    }
}

/// The fixed lowercase string literal that carries a service-unit state
/// on the wire.
pub open spec fn service_state_text(v: ServiceState) -> Seq<char> {
    match v {
        ServiceState::Active => "active"@,
        ServiceState::Reloading => "reloading"@,
        ServiceState::Inactive => "inactive"@,
        ServiceState::Failed => "failed"@,
        ServiceState::Activating => "activating"@,
        ServiceState::Deactivating => "deactivating"@,
    }
}

/// The service-unit state a string denotes: exact, case-sensitive match
/// against the six fixed literals, with no trimming or folding.
pub open spec fn service_state_of_text(s: Seq<char>) -> Option<ServiceState> {
    if s == "active"@ {
        Some(ServiceState::Active)
    } else if s == "reloading"@ {
        Some(ServiceState::Reloading)
    } else if s == "inactive"@ {
        Some(ServiceState::Inactive)
    } else if s == "failed"@ {
        Some(ServiceState::Failed)
    } else if s == "activating"@ {
        Some(ServiceState::Activating)
    } else if s == "deactivating"@ {
        Some(ServiceState::Deactivating)
    } else {
        None
    }
}

/// True when `e` is the invalid-enum-value error quoting the rejected
/// service-unit string `s`.
pub open spec fn is_invalid_service_text(e: QueryError, s: Seq<char>) -> bool {
    e matches QueryError::InvalidEnumValue { kind: EnumKind::ServiceUnit, raw: WireValue::Text(t) }
        && t@ == s
}

/// Relies on str's `PartialEq`: two string slices compare equal exactly
/// when they consist of the same characters.
#[verifier::external_body]
fn str_eq(a: &str, b: &str) -> (r: bool)
    ensures
        r == (a@ == b@),
{
    a == b
}

impl NetworkManagerState {
    /// Decodes a manager-state wire code, rejecting every code outside
    /// the defined set.
    pub fn from_wire(raw: u32) -> (r: Result<NetworkManagerState, QueryError>)
        ensures
            r == manager_state_decode(raw),
    {
        match raw {
            0 => Ok(NetworkManagerState::Unknown),
            10 => Ok(NetworkManagerState::Asleep),
            20 => Ok(NetworkManagerState::Disconnected),
            30 => Ok(NetworkManagerState::Disconnecting),
            40 => Ok(NetworkManagerState::Connecting),
            50 => Ok(NetworkManagerState::ConnectedLocal),
            60 => Ok(NetworkManagerState::ConnectedSite),
            70 => Ok(NetworkManagerState::ConnectedGlobal),
            _ => Err(
                QueryError::InvalidEnumValue {
                    kind: EnumKind::ManagerState,
                    raw: WireValue::Num(raw),
                },
            ),
        }
    }

    /// The exact wire code of this variant.
    pub fn to_wire(self) -> (r: u32)
        ensures
            r == manager_state_wire(self),
    {
        match self {
            NetworkManagerState::Unknown => 0,
            NetworkManagerState::Asleep => 10,
            NetworkManagerState::Disconnected => 20,
            NetworkManagerState::Disconnecting => 30,
            NetworkManagerState::Connecting => 40,
            NetworkManagerState::ConnectedLocal => 50,
            NetworkManagerState::ConnectedSite => 60,
            NetworkManagerState::ConnectedGlobal => 70,
        }
    }
}

impl Connectivity {
    /// Decodes a connectivity wire code, rejecting every code outside
    /// the defined set.
    pub fn from_wire(raw: u32) -> (r: Result<Connectivity, QueryError>)
        ensures
            r == connectivity_decode(raw),
    {
        match raw {
            0 => Ok(Connectivity::Unknown),
            1 => Ok(Connectivity::NoConnectivity),
            2 => Ok(Connectivity::Portal),
            3 => Ok(Connectivity::Limited),
            4 => Ok(Connectivity::Full),
            _ => Err(
                QueryError::InvalidEnumValue {
                    kind: EnumKind::Connectivity,
                    raw: WireValue::Num(raw),
                },
            ),
        }
    }

    /// The exact wire code of this variant.
    pub fn to_wire(self) -> (r: u32)
        ensures
            r == connectivity_wire(self),
    {
        match self {
            Connectivity::Unknown => 0,
            Connectivity::NoConnectivity => 1,
            Connectivity::Portal => 2,
            Connectivity::Limited => 3,
            Connectivity::Full => 4,
        }
    }
}

impl ConnectionState {
    /// Decodes a connection-state wire code, rejecting every code
    /// outside the defined set.
    pub fn from_wire(raw: u32) -> (r: Result<ConnectionState, QueryError>)
        ensures
            r == connection_state_decode(raw),
    {
        match raw {
            0 => Ok(ConnectionState::Unknown),
            1 => Ok(ConnectionState::Activating),
            2 => Ok(ConnectionState::Activated),
            3 => Ok(ConnectionState::Deactivating),
            4 => Ok(ConnectionState::Deactivated),
            _ => Err(
                QueryError::InvalidEnumValue {
                    kind: EnumKind::ConnectionState,
                    raw: WireValue::Num(raw),
                },
            ),
        }
    }

    /// The exact wire code of this variant.
    pub fn to_wire(self) -> (r: u32)
        ensures
            r == connection_state_wire(self),
    {
        match self {
            ConnectionState::Unknown => 0,
            ConnectionState::Activating => 1,
            ConnectionState::Activated => 2,
            ConnectionState::Deactivating => 3,
            ConnectionState::Deactivated => 4,
        }
    }
}

impl ServiceState {
    /// Parses a service-unit state string: exact, case-sensitive match
    /// against the six fixed lowercase literals.  Every other string is
    /// rejected with [`QueryError::InvalidEnumValue`] quoting it.
    pub fn from_str(s: &str) -> (r: Result<ServiceState, QueryError>)
        ensures
            service_state_of_text(s@) matches Some(v) ==> r == Ok::<ServiceState, QueryError>(v),
            service_state_of_text(s@) is None ==> (r matches Err(e) && is_invalid_service_text(
                e,
                s@,
            )),
    {
        if str_eq(s, "active") {
            Ok(ServiceState::Active)
        } else if str_eq(s, "reloading") {
            Ok(ServiceState::Reloading)
        } else if str_eq(s, "inactive") {
            Ok(ServiceState::Inactive)
        } else if str_eq(s, "failed") {
            Ok(ServiceState::Failed)
        } else if str_eq(s, "activating") {
            Ok(ServiceState::Activating)
        } else if str_eq(s, "deactivating") {
            Ok(ServiceState::Deactivating)
        } else {
            Err(
                QueryError::InvalidEnumValue {
                    kind: EnumKind::ServiceUnit,
                    raw: WireValue::Text(String::from_str(s)),
                },
            )
        }
    }

    /// The exact string literal that carries this variant on the wire.
    pub fn as_str(self) -> (r: &'static str)
        ensures
            r@ == service_state_text(self),
    {
        match self {
            ServiceState::Active => "active",
            ServiceState::Reloading => "reloading",
            ServiceState::Inactive => "inactive",
            ServiceState::Failed => "failed",
            ServiceState::Activating => "activating",
            ServiceState::Deactivating => "deactivating",
        }
    }
}

impl From<NetworkManagerState> for u32 {
    fn from(v: NetworkManagerState) -> u32 {
        v.to_wire()
    }
}

impl vstd::std_specs::convert::FromSpecImpl<NetworkManagerState> for u32 {
    open spec fn obeys_from_spec() -> bool {
        true
    }

    open spec fn from_spec(v: NetworkManagerState) -> u32 {
        manager_state_wire(v)
    }
}

impl From<Connectivity> for u32 {
    fn from(v: Connectivity) -> u32 {
        v.to_wire()
    }
}

impl vstd::std_specs::convert::FromSpecImpl<Connectivity> for u32 {
    open spec fn obeys_from_spec() -> bool {
        true
    }

    open spec fn from_spec(v: Connectivity) -> u32 {
        connectivity_wire(v)
    }
}

impl From<ConnectionState> for u32 {
    fn from(v: ConnectionState) -> u32 {
        v.to_wire()
    }
}

impl vstd::std_specs::convert::FromSpecImpl<ConnectionState> for u32 {
    open spec fn obeys_from_spec() -> bool {
        true
    }

    open spec fn from_spec(v: ConnectionState) -> u32 {
        connection_state_wire(v)
    }
}

/// Round-trip law: encoding any manager state and decoding the code
/// yields the same variant.
pub proof fn lemma_manager_state_round_trip(v: NetworkManagerState)
    ensures
        manager_state_of_wire(manager_state_wire(v)) == Some(v),
{
}

/// Rejection law: a wire code that no manager state encodes to decodes
/// to nothing, never to a fallback variant.
pub proof fn lemma_manager_state_rejection(raw: u32)
    requires
        forall|v: NetworkManagerState| manager_state_wire(v) != raw,
    ensures
        manager_state_of_wire(raw) is None,
{
    assert(manager_state_wire(NetworkManagerState::Unknown) != raw);
    assert(manager_state_wire(NetworkManagerState::Asleep) != raw);
    assert(manager_state_wire(NetworkManagerState::Disconnected) != raw);
    assert(manager_state_wire(NetworkManagerState::Disconnecting) != raw);
    assert(manager_state_wire(NetworkManagerState::Connecting) != raw);
    assert(manager_state_wire(NetworkManagerState::ConnectedLocal) != raw);
    assert(manager_state_wire(NetworkManagerState::ConnectedSite) != raw);
    assert(manager_state_wire(NetworkManagerState::ConnectedGlobal) != raw);
}

/// Round-trip law for connectivity levels.
pub proof fn lemma_connectivity_round_trip(v: Connectivity)
    ensures
        connectivity_of_wire(connectivity_wire(v)) == Some(v),
{
}

/// Rejection law for connectivity levels.
pub proof fn lemma_connectivity_rejection(raw: u32)
    requires
        forall|v: Connectivity| connectivity_wire(v) != raw,
    ensures
        connectivity_of_wire(raw) is None,
{
    assert(connectivity_wire(Connectivity::Unknown) != raw);
    assert(connectivity_wire(Connectivity::NoConnectivity) != raw);
    assert(connectivity_wire(Connectivity::Portal) != raw);
    assert(connectivity_wire(Connectivity::Limited) != raw);
    assert(connectivity_wire(Connectivity::Full) != raw);
}

/// Round-trip law for connection states.
pub proof fn lemma_connection_state_round_trip(v: ConnectionState)
    ensures
        connection_state_of_wire(connection_state_wire(v)) == Some(v),
{
}

/// Rejection law for connection states.
pub proof fn lemma_connection_state_rejection(raw: u32)
    requires
        forall|v: ConnectionState| connection_state_wire(v) != raw,
    ensures
        connection_state_of_wire(raw) is None,
{
    assert(connection_state_wire(ConnectionState::Unknown) != raw);
    assert(connection_state_wire(ConnectionState::Activating) != raw);
    assert(connection_state_wire(ConnectionState::Activated) != raw);
    assert(connection_state_wire(ConnectionState::Deactivating) != raw);
    assert(connection_state_wire(ConnectionState::Deactivated) != raw);
}

/// Round-trip law for service-unit states: the wire literal of any
/// variant parses back to that variant.
pub proof fn lemma_service_state_round_trip(v: ServiceState)
    ensures
        service_state_of_text(service_state_text(v)) == Some(v),
{
    reveal_strlit("active");
    reveal_strlit("reloading");
    reveal_strlit("inactive");
    reveal_strlit("failed");
    reveal_strlit("activating");
    reveal_strlit("deactivating");
    assert("active"@.len() == 6);
    assert("reloading"@.len() == 9);
    assert("inactive"@.len() == 8);
    assert("failed"@.len() == 6);
    assert("activating"@.len() == 10);
    assert("deactivating"@.len() == 12);
    assert("active"@[0] == 'a');
    assert("failed"@[0] == 'f');
}

/// Rejection law for service-unit states: a string that no variant is
/// carried as parses to nothing.
pub proof fn lemma_service_state_rejection(s: Seq<char>)
    requires
        forall|v: ServiceState| service_state_text(v) != s,
    ensures
        service_state_of_text(s) is None,
{
    assert(service_state_text(ServiceState::Active) != s);
    assert(service_state_text(ServiceState::Reloading) != s);
    assert(service_state_text(ServiceState::Inactive) != s);
    assert(service_state_text(ServiceState::Failed) != s);
    assert(service_state_text(ServiceState::Activating) != s);
    assert(service_state_text(ServiceState::Deactivating) != s);
}

} // verus!
