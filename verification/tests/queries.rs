use network_manager::error::{EnumKind, QueryError, ReplyShape, TransportFault, ValueKind, WireValue};
use network_manager::general::{
    dbus_path_to_string, decode_state_step, status, Status, NM_SERVICE_INTERFACE,
    NM_SERVICE_MANAGER, NM_SERVICE_PATH,
};
use network_manager::states::{ConnectionState, Connectivity, NetworkManagerState, ServiceState};
use network_manager::wire::{extract_bool_value, extract_single_u32, RawReply, RawValue};

fn u32_reply(x: u32) -> Result<RawReply, TransportFault> {
    Ok(RawReply {
        values: vec![RawValue::U32(x)],
    })
}

fn fault(cause: &str) -> TransportFault {
    TransportFault {
        cause: cause.to_string(),
    }
}

#[test]
fn manager_state_round_trip() {
    let variants = [
        NetworkManagerState::Unknown,
        NetworkManagerState::Asleep,
        NetworkManagerState::Disconnected,
        NetworkManagerState::Disconnecting,
        NetworkManagerState::Connecting,
        NetworkManagerState::ConnectedLocal,
        NetworkManagerState::ConnectedSite,
        NetworkManagerState::ConnectedGlobal,
    ];
    let codes = [0, 10, 20, 30, 40, 50, 60, 70];
    for (v, c) in variants.iter().zip(codes.iter()) {
        assert_eq!(v.to_wire(), *c);
        assert_eq!(u32::from(*v), *c);
        assert_eq!(NetworkManagerState::from_wire(*c), Ok(*v));
    }
}

#[test]
fn connectivity_round_trip() {
    let variants = [
        Connectivity::Unknown,
        Connectivity::NoConnectivity,
        Connectivity::Portal,
        Connectivity::Limited,
        Connectivity::Full,
    ];
    for (i, v) in variants.iter().enumerate() {
        assert_eq!(v.to_wire(), i as u32);
        assert_eq!(u32::from(*v), i as u32);
        assert_eq!(Connectivity::from_wire(i as u32), Ok(*v));
    }
}

#[test]
fn connection_state_round_trip() {
    let variants = [
        ConnectionState::Unknown,
        ConnectionState::Activating,
        ConnectionState::Activated,
        ConnectionState::Deactivating,
        ConnectionState::Deactivated,
    ];
    for (i, v) in variants.iter().enumerate() {
        assert_eq!(v.to_wire(), i as u32);
        assert_eq!(u32::from(*v), i as u32);
        assert_eq!(ConnectionState::from_wire(i as u32), Ok(*v));
    }
}

#[test]
fn service_state_round_trip() {
    let variants = [
        ServiceState::Active,
        ServiceState::Reloading,
        ServiceState::Inactive,
        ServiceState::Failed,
        ServiceState::Activating,
        ServiceState::Deactivating,
    ];
    for v in variants.iter() {
        assert_eq!(ServiceState::from_str(v.as_str()), Ok(*v));
    }
    assert_eq!(ServiceState::Active.as_str(), "active");
    assert_eq!(ServiceState::Deactivating.as_str(), "deactivating");
}

#[test]
fn unmapped_wire_values_are_rejected() {
    assert_eq!(
        NetworkManagerState::from_wire(15),
        Err(QueryError::InvalidEnumValue {
            kind: EnumKind::ManagerState,
            raw: WireValue::Num(15),
        })
    );
    assert_eq!(
        Connectivity::from_wire(5),
        Err(QueryError::InvalidEnumValue {
            kind: EnumKind::Connectivity,
            raw: WireValue::Num(5),
        })
    );
    assert_eq!(
        ConnectionState::from_wire(7),
        Err(QueryError::InvalidEnumValue {
            kind: EnumKind::ConnectionState,
            raw: WireValue::Num(7),
        })
    );
    assert_eq!(
        ServiceState::from_str("unknown-state"),
        Err(QueryError::InvalidEnumValue {
            kind: EnumKind::ServiceUnit,
            raw: WireValue::Text("unknown-state".to_string()),
        })
    );
}

#[test]
fn service_state_parsing_is_case_sensitive() {
    assert_eq!(ServiceState::from_str("active"), Ok(ServiceState::Active));
    assert_eq!(
        ServiceState::from_str("Active"),
        Err(QueryError::InvalidEnumValue {
            kind: EnumKind::ServiceUnit,
            raw: WireValue::Text("Active".to_string()),
        })
    );
}

#[test]
fn service_state_parses_failed() {
    assert_eq!(ServiceState::from_str("failed"), Ok(ServiceState::Failed));
}

#[test]
fn manager_state_sixty_is_connected_site() {
    assert_eq!(
        NetworkManagerState::from_wire(60),
        Ok(NetworkManagerState::ConnectedSite)
    );
    assert_eq!(
        decode_state_step(u32_reply(60)),
        Ok(NetworkManagerState::ConnectedSite)
    );
}

#[test]
fn connectivity_four_is_full() {
    assert_eq!(Connectivity::from_wire(4), Ok(Connectivity::Full));
}

#[test]
fn status_rejects_unmapped_manager_state() {
    let r = status(
        u32_reply(99),
        u32_reply(4),
        Ok(RawValue::Bool(true)),
        Ok(RawValue::Bool(true)),
    );
    assert_eq!(
        r,
        Err(QueryError::InvalidEnumValue {
            kind: EnumKind::ManagerState,
            raw: WireValue::Num(99),
        })
    );
}

#[test]
fn status_populates_every_field() {
    let r = status(
        u32_reply(70),
        u32_reply(1),
        Ok(RawValue::Bool(true)),
        Ok(RawValue::Bool(false)),
    );
    assert_eq!(
        r,
        Ok(Status {
            state: NetworkManagerState::ConnectedGlobal,
            connectivity: Connectivity::NoConnectivity,
            wireless_network_enabled: true,
            networking_enabled: false,
        })
    );
}

#[test]
fn status_fails_whole_when_property_read_fails() {
    let r = status(
        u32_reply(70),
        u32_reply(4),
        Err(fault("service unreachable")),
        Ok(RawValue::Bool(true)),
    );
    assert_eq!(
        r,
        Err(QueryError::RemotePropertyReadFailed {
            service: NM_SERVICE_MANAGER.to_string(),
            path: NM_SERVICE_PATH.to_string(),
            interface: NM_SERVICE_INTERFACE.to_string(),
            property: "WirelessEnabled".to_string(),
            cause: "service unreachable".to_string(),
        })
    );
}

#[test]
fn status_surfaces_first_failing_step() {
    let r = status(
        Err(fault("no reply")),
        u32_reply(99),
        Err(fault("service unreachable")),
        Ok(RawValue::Bool(true)),
    );
    assert_eq!(
        r,
        Err(QueryError::RemoteCallFailed {
            service: NM_SERVICE_MANAGER.to_string(),
            path: NM_SERVICE_PATH.to_string(),
            interface: NM_SERVICE_INTERFACE.to_string(),
            member: "state".to_string(),
            cause: "no reply".to_string(),
        })
    );
}

#[test]
fn reply_shape_is_checked() {
    let empty = RawReply { values: vec![] };
    assert_eq!(
        extract_single_u32(&empty),
        Err(QueryError::InvalidReplyShape {
            expected: ValueKind::U32,
            got: ReplyShape::Empty,
        })
    );
    let double = RawReply {
        values: vec![RawValue::U32(1), RawValue::U32(2)],
    };
    assert_eq!(
        extract_single_u32(&double),
        Err(QueryError::InvalidReplyShape {
            expected: ValueKind::U32,
            got: ReplyShape::Multiple,
        })
    );
    let wrong = RawReply {
        values: vec![RawValue::Bool(true)],
    };
    assert_eq!(
        extract_single_u32(&wrong),
        Err(QueryError::InvalidReplyShape {
            expected: ValueKind::U32,
            got: ReplyShape::Single(ValueKind::Bool),
        })
    );
    assert_eq!(
        extract_bool_value(&RawValue::U32(1)),
        Err(QueryError::InvalidReplyShape {
            expected: ValueKind::Bool,
            got: ReplyShape::Single(ValueKind::U32),
        })
    );
    assert_eq!(extract_bool_value(&RawValue::Bool(true)), Ok(true));
}

#[test]
fn object_path_decoding() {
    let good = b"/org/freedesktop/NetworkManager".to_vec();
    assert_eq!(
        dbus_path_to_string(good),
        Ok("/org/freedesktop/NetworkManager".to_string())
    );
    let bad = vec![0x2f, 0xff, 0xfe];
    assert_eq!(
        dbus_path_to_string(bad.clone()),
        Err(QueryError::MalformedPath { bytes: bad })
    );
}

#[test]
fn default_status_is_the_unknown_seed() {
    let s = Status::default();
    assert_eq!(s.state, NetworkManagerState::Unknown);
    assert_eq!(s.connectivity, Connectivity::Unknown);
    assert!(!s.wireless_network_enabled);
    assert!(!s.networking_enabled);
}
