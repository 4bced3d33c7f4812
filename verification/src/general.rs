//! The remote query client and status aggregator: the well-known names
//! this library addresses, the [`Status`] record, the per-step decode
//! functions, and [`status`], which composes the four steps of one
//! status snapshot in their fixed order.
//!
//! The bus transport itself is an external collaborator.  The caller
//! performs each exchange and hands the outcome — a raw reply or the
//! transport's fault — to the decode functions here; the first failing
//! step determines the error of the whole snapshot, and no partially
//! populated [`Status`] is ever produced.

use vstd::prelude::*;
use vstd::string::StringExecFns;
use vstd::utf8::{decode_utf8, valid_utf8};

use crate::codec::{connectivity_decode, manager_state_decode};
use crate::error::{QueryError, TransportFault};
use crate::states::{Connectivity, NetworkManagerState};
use crate::wire::{bool_value_decode, u32_reply_decode, RawReply, RawValue};

verus! {

pub const NM_SERVICE_MANAGER: &'static str = "org.freedesktop.NetworkManager";

pub const SD_SERVICE_MANAGER: &'static str = "org.freedesktop.systemd1";

pub const NM_SERVICE_PATH: &'static str = "/org/freedesktop/NetworkManager";

pub const NM_SETTINGS_PATH: &'static str = "/org/freedesktop/NetworkManager/Settings";

pub const SD_SERVICE_PATH: &'static str = "/org/freedesktop/systemd1";

pub const NM_SERVICE_INTERFACE: &'static str = "org.freedesktop.NetworkManager";

pub const NM_SETTINGS_INTERFACE: &'static str = "org.freedesktop.NetworkManager.Settings";

pub const NM_CONNECTION_INTERFACE: &'static str =
    "org.freedesktop.NetworkManager.Settings.Connection";

pub const NM_ACTIVE_INTERFACE: &'static str = "org.freedesktop.NetworkManager.Connection.Active";

pub const SD_MANAGER_INTERFACE: &'static str = "org.freedesktop.systemd1.Manager";

pub const SD_UNIT_INTERFACE: &'static str = "org.freedesktop.systemd1.Unit";

/// One status snapshot of the network-configuration manager.  A value
/// handed out by [`status`] has every field set from a remote response.
#[derive(Clone, Copy, Debug, PartialEq, Eq, Structural)]
pub struct Status {
    pub state: NetworkManagerState,
    pub connectivity: Connectivity,
    pub wireless_network_enabled: bool,
    pub networking_enabled: bool,
}

impl Default for Status {
    /// The pre-population seed: all unknown, nothing enabled.  Only a
    /// construction convenience — [`status`] never returns it in place
    /// of a real observation.
    fn default() -> (s: Status)
        ensures
            s.state == NetworkManagerState::Unknown,
            s.connectivity == Connectivity::Unknown,
            !s.wireless_network_enabled,
            !s.networking_enabled,
    {
        Status {
            state: NetworkManagerState::Unknown,
            connectivity: Connectivity::Unknown,
            wireless_network_enabled: false,
            networking_enabled: false,
        }
    }
}

/// True when `e` reports that the manager method call `member` failed
/// with the transport's `cause`.
pub open spec fn is_manager_call_error(e: QueryError, member: Seq<char>, cause: Seq<char>) -> bool {
    e matches QueryError::RemoteCallFailed { service, path, interface, member: m, cause: c }
        && service@ == NM_SERVICE_MANAGER@ && path@ == NM_SERVICE_PATH@ && interface@
        == NM_SERVICE_INTERFACE@ && m@ == member && c@ == cause
}

/// True when `e` reports that reading the manager property `property`
/// failed with the transport's `cause`.
pub open spec fn is_manager_property_error(
    e: QueryError,
    property: Seq<char>,
    cause: Seq<char>,
) -> bool {
    e matches QueryError::RemotePropertyReadFailed {
        service,
        path,
        interface,
        property: p,
        cause: c,
    } && service@ == NM_SERVICE_MANAGER@ && path@ == NM_SERVICE_PATH@ && interface@
        == NM_SERVICE_INTERFACE@ && p@ == property && c@ == cause
}

fn manager_call_error(member: &str, fault: TransportFault) -> (e: QueryError)
    ensures
        is_manager_call_error(e, member@, fault.cause@),
{
    QueryError::RemoteCallFailed {
        service: String::from_str(NM_SERVICE_MANAGER),
        path: String::from_str(NM_SERVICE_PATH),
        interface: String::from_str(NM_SERVICE_INTERFACE),
        member: String::from_str(member),
        cause: fault.cause,
    }
}

fn manager_property_error(property: &str, fault: TransportFault) -> (e: QueryError)
    ensures
        is_manager_property_error(e, property@, fault.cause@),
{
    QueryError::RemotePropertyReadFailed {
        service: String::from_str(NM_SERVICE_MANAGER),
        path: String::from_str(NM_SERVICE_PATH),
        interface: String::from_str(NM_SERVICE_INTERFACE),
        property: String::from_str(property),
        cause: fault.cause,
    }
}

/// What the manager-state step yields from a raw reply: shape check,
/// then wire decode.
pub open spec fn state_reply_decode(vals: Seq<RawValue>) -> Result<NetworkManagerState, QueryError> {
    match u32_reply_decode(vals) {
        Ok(raw) => manager_state_decode(raw),
        Err(e) => Err(e),
    }
}

/// What the connectivity step yields from a raw reply.
pub open spec fn connectivity_reply_decode(vals: Seq<RawValue>) -> Result<
    Connectivity,
    QueryError,
> {
    match u32_reply_decode(vals) {
        Ok(raw) => connectivity_decode(raw),
        Err(e) => Err(e),
    }
}

/// True when the manager-state step succeeds on this transport outcome.
pub open spec fn state_step_ok(reply: Result<RawReply, TransportFault>) -> bool {
    reply matches Ok(rep) && state_reply_decode(rep.values@) is Ok
}

/// The manager state the step yields, when it succeeds.
pub open spec fn state_step_value(reply: Result<RawReply, TransportFault>) -> NetworkManagerState
    recommends
        state_step_ok(reply),
{
    state_reply_decode(reply->Ok_0.values@)->Ok_0
}

/// True when the connectivity step succeeds on this transport outcome.
pub open spec fn connectivity_step_ok(reply: Result<RawReply, TransportFault>) -> bool {
    reply matches Ok(rep) && connectivity_reply_decode(rep.values@) is Ok
}

/// The connectivity level the step yields, when it succeeds.
pub open spec fn connectivity_step_value(reply: Result<RawReply, TransportFault>) -> Connectivity
    recommends
        connectivity_step_ok(reply),
{
    connectivity_reply_decode(reply->Ok_0.values@)->Ok_0
}

/// True when a boolean property step succeeds on this transport
/// outcome.
pub open spec fn bool_step_ok(value: Result<RawValue, TransportFault>) -> bool {
    value matches Ok(v) && bool_value_decode(v) is Ok
}

/// The boolean a property step yields, when it succeeds.
pub open spec fn bool_step_value(value: Result<RawValue, TransportFault>) -> bool
    recommends
        bool_step_ok(value),
{
    bool_value_decode(value->Ok_0)->Ok_0
}

/// Decodes the manager-state step: the reply must consist of exactly
/// one 32-bit value carrying a defined manager-state code; a transport
/// fault becomes the exact remote-call error for member `state`.
pub fn decode_state_step(reply: Result<RawReply, TransportFault>) -> (r: Result<
    NetworkManagerState,
    QueryError,
>)
    ensures
        reply matches Ok(rep) ==> r == state_reply_decode(rep.values@),
        reply matches Err(f) ==> (r matches Err(e) && is_manager_call_error(e, "state"@, f.cause@)),
        r is Ok <==> state_step_ok(reply),
        r matches Ok(v) ==> v == state_step_value(reply),
{
    match reply {
        Ok(rep) => {
            let raw = crate::wire::extract_single_u32(&rep)?;
            NetworkManagerState::from_wire(raw)
        },
        Err(f) => Err(manager_call_error("state", f)),
    }
}

/// Decodes the connectivity step: the reply must consist of exactly one
/// 32-bit value carrying a defined connectivity code; a transport fault
/// becomes the exact remote-call error for member `CheckConnectivity`.
pub fn decode_connectivity_step(reply: Result<RawReply, TransportFault>) -> (r: Result<
    Connectivity,
    QueryError,
>)
    ensures
        reply matches Ok(rep) ==> r == connectivity_reply_decode(rep.values@),
        reply matches Err(f) ==> (r matches Err(e) && is_manager_call_error(
            e,
            "CheckConnectivity"@,
            f.cause@,
        )),
        r is Ok <==> connectivity_step_ok(reply),
        r matches Ok(v) ==> v == connectivity_step_value(reply),
{
    match reply {
        Ok(rep) => {
            let raw = crate::wire::extract_single_u32(&rep)?;
            Connectivity::from_wire(raw)
        },
        Err(f) => Err(manager_call_error("CheckConnectivity", f)),
    }
}

/// Decodes the wireless-enablement step: the property value must be a
/// boolean; a transport fault becomes the exact property-read error for
/// `WirelessEnabled`.
pub fn decode_wireless_step(value: Result<RawValue, TransportFault>) -> (r: Result<
    bool,
    QueryError,
>)
    ensures
        value matches Ok(v) ==> r == bool_value_decode(v),
        value matches Err(f) ==> (r matches Err(e) && is_manager_property_error(
            e,
            "WirelessEnabled"@,
            f.cause@,
        )),
        r is Ok <==> bool_step_ok(value),
        r matches Ok(b) ==> b == bool_step_value(value),
{
    match value {
        Ok(v) => crate::wire::extract_bool_value(&v),
        Err(f) => Err(manager_property_error("WirelessEnabled", f)),
    }
}

/// Decodes the networking-enablement step: the property value must be a
/// boolean; a transport fault becomes the exact property-read error for
/// `NetworkingEnabled`.
pub fn decode_networking_step(value: Result<RawValue, TransportFault>) -> (r: Result<
    bool,
    QueryError,
>)
    ensures
        value matches Ok(v) ==> r == bool_value_decode(v),
        value matches Err(f) ==> (r matches Err(e) && is_manager_property_error(
            e,
            "NetworkingEnabled"@,
            f.cause@,
        )),
        r is Ok <==> bool_step_ok(value),
        r matches Ok(b) ==> b == bool_step_value(value),
{
    match value {
        Ok(v) => crate::wire::extract_bool_value(&v),
        Err(f) => Err(manager_property_error("NetworkingEnabled", f)),
    }
}

/// Produces one status snapshot out of the four step outcomes, in their
/// fixed order: manager state, connectivity, wireless enablement,
/// networking enablement.  All or nothing: the first failing step's
/// error is the result, and no partially populated [`Status`] exists.
pub fn status(
    state_reply: Result<RawReply, TransportFault>,
    connectivity_reply: Result<RawReply, TransportFault>,
    wireless_value: Result<RawValue, TransportFault>,
    networking_value: Result<RawValue, TransportFault>,
) -> (r: Result<Status, QueryError>)
    ensures
        r is Ok <==> state_step_ok(state_reply) && connectivity_step_ok(connectivity_reply)
            && bool_step_ok(wireless_value) && bool_step_ok(networking_value),
        r matches Ok(st) ==> st == (Status {
            state: state_step_value(state_reply),
            connectivity: connectivity_step_value(connectivity_reply),
            wireless_network_enabled: bool_step_value(wireless_value),
            networking_enabled: bool_step_value(networking_value),
        }),
        state_reply matches Err(f) ==> (r matches Err(e) && is_manager_call_error(
            e,
            "state"@,
            f.cause@,
        )),
        state_reply matches Ok(rep) ==> (state_reply_decode(rep.values@) matches Err(e) ==> r
            == Err::<Status, QueryError>(e)),
        state_step_ok(state_reply) ==> (connectivity_reply matches Err(f) ==> (r matches Err(e)
            && is_manager_call_error(e, "CheckConnectivity"@, f.cause@))),
        state_step_ok(state_reply) ==> (connectivity_reply matches Ok(rep) ==> (
        connectivity_reply_decode(rep.values@) matches Err(e) ==> r == Err::<Status, QueryError>(
            e,
        ))),
        state_step_ok(state_reply) && connectivity_step_ok(connectivity_reply) ==> (wireless_value
            matches Err(f) ==> (r matches Err(e) && is_manager_property_error(
            e,
            "WirelessEnabled"@,
            f.cause@,
        ))),
        state_step_ok(state_reply) && connectivity_step_ok(connectivity_reply) ==> (wireless_value
            matches Ok(v) ==> (bool_value_decode(v) matches Err(e) ==> r == Err::<
            Status,
            QueryError,
        >(e))),
        state_step_ok(state_reply) && connectivity_step_ok(connectivity_reply) && bool_step_ok(
            wireless_value,
        ) ==> (networking_value matches Err(f) ==> (r matches Err(e) && is_manager_property_error(
            e,
            "NetworkingEnabled"@,
            f.cause@,
        ))),
        state_step_ok(state_reply) && connectivity_step_ok(connectivity_reply) && bool_step_ok(
            wireless_value,
        ) ==> (networking_value matches Ok(v) ==> (bool_value_decode(v) matches Err(e) ==> r
            == Err::<Status, QueryError>(e))),
{
    let state = decode_state_step(state_reply)?;
    let connectivity = decode_connectivity_step(connectivity_reply)?;
    let wireless_network_enabled = decode_wireless_step(wireless_value)?;
    let networking_enabled = decode_networking_step(networking_value)?;
    Ok(Status { state, connectivity, wireless_network_enabled, networking_enabled })
}

/// Relies on `String::from_utf8`: succeeds exactly on valid UTF-8 and
/// yields its decoding; on failure the bytes are handed back unchanged.
#[verifier::external_body]
fn string_from_utf8(bytes: Vec<u8>) -> (r: Result<String, Vec<u8>>)
    ensures
        r matches Ok(s) ==> valid_utf8(bytes@) && s@ == decode_utf8(bytes@),
        r matches Err(b) ==> !valid_utf8(bytes@) && b@ == bytes@,
{
    match String::from_utf8(bytes) {
        Ok(s) => Ok(s),
        Err(e) => Err(e.into_bytes()),
    }
}

/// Converts the bytes of a bus object path to a plain string, failing
/// with [`QueryError::MalformedPath`] — never substituting a
/// placeholder — when they are not valid text.
pub fn dbus_path_to_string(bytes: Vec<u8>) -> (r: Result<String, QueryError>)
    ensures
        r is Ok <==> valid_utf8(bytes@),
        r matches Ok(s) ==> s@ == decode_utf8(bytes@),
        r matches Err(e) ==> (e matches QueryError::MalformedPath { bytes: b } && b@ == bytes@),
{
    match string_from_utf8(bytes) {
        Ok(s) => Ok(s),
        Err(b) => Err(QueryError::MalformedPath { bytes: b }),
    }
}

} // verus!
