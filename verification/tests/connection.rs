use ble_central::connection::{
    ConnStatus, ConnectAction, ConnectionManager, DisconnectAction, PlatformConnectOutcome,
};
use ble_central::errors::BleError;

const ADDR: &str = "AA:BB:CC:DD:EE:FF";
const OTHER: &str = "11:22:33:44:55:66";

#[test]
fn connect_walks_disconnected_connecting_connected() {
    let mut mgr = ConnectionManager::new();
    let (pa, action) = mgr.connect_begin(ADDR).unwrap();
    assert_eq!(action, ConnectAction::IssuePlatformConnect);
    assert_eq!(mgr.status_of(&pa), ConnStatus::Connecting);
    let r = mgr.connect_finish(&pa, PlatformConnectOutcome::Established);
    assert_eq!(r, Ok(ConnStatus::Connected));
    assert_eq!(mgr.status_of(&pa), ConnStatus::Connected);
}

#[test]
fn second_connect_is_noop_returning_connected() {
    let mut mgr = ConnectionManager::new();
    let (pa, first) = mgr.connect_begin(ADDR).unwrap();
    assert_eq!(first, ConnectAction::IssuePlatformConnect);
    mgr.connect_finish(&pa, PlatformConnectOutcome::Established).unwrap();
    let (pa2, second) = mgr.connect_begin(ADDR).unwrap();
    assert_eq!(pa2, pa);
    assert_eq!(second, ConnectAction::NoOperation);
    assert_eq!(mgr.status_of(&pa), ConnStatus::Connected);
}

#[test]
fn racing_connects_issue_exactly_one_platform_connect() {
    let mut mgr = ConnectionManager::new();
    let (pa, first) = mgr.connect_begin(ADDR).unwrap();
    assert_eq!(first, ConnectAction::IssuePlatformConnect);
    let (_, second) = mgr.connect_begin(ADDR).unwrap();
    assert_eq!(second, ConnectAction::AwaitInFlight);
    mgr.connect_finish(&pa, PlatformConnectOutcome::Established).unwrap();
    assert_eq!(mgr.status_of(&pa), ConnStatus::Connected);
}

#[test]
fn malformed_address_fails_before_any_platform_action() {
    let mut mgr = ConnectionManager::new();
    assert_eq!(mgr.connect_begin("xyz"), Err(BleError::AddressParseError));
    assert_eq!(
        mgr.connect_begin("not-a-valid-address"),
        Err(BleError::AddressParseError)
    );
    assert_eq!(mgr.disconnect_begin("xyz"), Err(BleError::AddressParseError));
}

#[test]
fn unresolved_peripheral_reports_not_found() {
    let mut mgr = ConnectionManager::new();
    let (pa, _) = mgr.connect_begin(ADDR).unwrap();
    let r = mgr.connect_finish(&pa, PlatformConnectOutcome::NotFound);
    assert_eq!(r, Err(BleError::PeripheralNotFound));
    assert_eq!(mgr.status_of(&pa), ConnStatus::Disconnected);
}

#[test]
fn refused_connect_reports_connection_error_and_is_retryable() {
    let mut mgr = ConnectionManager::new();
    let (pa, _) = mgr.connect_begin(ADDR).unwrap();
    let r = mgr.connect_finish(&pa, PlatformConnectOutcome::Refused);
    assert_eq!(r, Err(BleError::ConnectionError));
    assert_eq!(mgr.status_of(&pa), ConnStatus::Disconnected);
    let (_, retry) = mgr.connect_begin(ADDR).unwrap();
    assert_eq!(retry, ConnectAction::IssuePlatformConnect);
}

#[test]
fn disconnect_of_never_connected_address_is_successful_noop() {
    let mut mgr = ConnectionManager::new();
    let (pa, action) = mgr.disconnect_begin(ADDR).unwrap();
    assert_eq!(action, DisconnectAction::NoOperation);
    assert_eq!(mgr.status_of(&pa), ConnStatus::Disconnected);
}

#[test]
fn disconnect_tears_down_a_connected_address() {
    let mut mgr = ConnectionManager::new();
    let (pa, _) = mgr.connect_begin(ADDR).unwrap();
    mgr.connect_finish(&pa, PlatformConnectOutcome::Established).unwrap();
    let (_, action) = mgr.disconnect_begin(ADDR).unwrap();
    assert_eq!(action, DisconnectAction::IssuePlatformDisconnect);
    assert_eq!(mgr.status_of(&pa), ConnStatus::Disconnecting);
    let r = mgr.disconnect_finish(&pa, true);
    assert_eq!(r, Ok(ConnStatus::Disconnected));
    assert_eq!(mgr.status_of(&pa), ConnStatus::Disconnected);
}

#[test]
fn refused_disconnect_leaves_address_connected() {
    let mut mgr = ConnectionManager::new();
    let (pa, _) = mgr.connect_begin(ADDR).unwrap();
    mgr.connect_finish(&pa, PlatformConnectOutcome::Established).unwrap();
    mgr.disconnect_begin(ADDR).unwrap();
    let r = mgr.disconnect_finish(&pa, false);
    assert_eq!(r, Err(BleError::DisconnectionError));
    assert_eq!(mgr.status_of(&pa), ConnStatus::Connected);
}

#[test]
fn different_addresses_proceed_independently() {
    let mut mgr = ConnectionManager::new();
    let (pa, a1) = mgr.connect_begin(ADDR).unwrap();
    let (pb, b1) = mgr.connect_begin(OTHER).unwrap();
    assert_eq!(a1, ConnectAction::IssuePlatformConnect);
    assert_eq!(b1, ConnectAction::IssuePlatformConnect);
    mgr.connect_finish(&pa, PlatformConnectOutcome::Established).unwrap();
    assert_eq!(mgr.status_of(&pa), ConnStatus::Connected);
    assert_eq!(mgr.status_of(&pb), ConnStatus::Connecting);
    mgr.connect_finish(&pb, PlatformConnectOutcome::Refused).unwrap_err();
    assert_eq!(mgr.status_of(&pa), ConnStatus::Connected);
    assert_eq!(mgr.status_of(&pb), ConnStatus::Disconnected);
}
