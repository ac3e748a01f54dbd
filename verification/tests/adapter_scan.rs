use ble_central::adapter::{AdapterAction, AdapterManager};
use ble_central::address::parse_address;
use ble_central::connection::ConnStatus;
use ble_central::discovery::{require_connected, PeripheralHandle, ServiceInfo};
use ble_central::errors::BleError;
use ble_central::scanner::{ScanAction, Scanner};

#[test]
fn first_acquisition_enumerates_and_later_ones_reuse_the_singleton() {
    let mut mgr = AdapterManager::new();
    assert_eq!(mgr.acquire_begin(), AdapterAction::EnumeratePlatformAdapters);
    assert_eq!(mgr.acquire_begin(), AdapterAction::AwaitInitialization);
    assert_eq!(mgr.acquire_finish(1), Ok(()));
    assert_eq!(mgr.acquire_begin(), AdapterAction::UseExisting);
    assert_eq!(mgr.acquire_begin(), AdapterAction::UseExisting);
}

#[test]
fn empty_enumeration_is_fatal_adapter_unavailable() {
    let mut mgr = AdapterManager::new();
    assert_eq!(mgr.acquire_begin(), AdapterAction::EnumeratePlatformAdapters);
    assert_eq!(mgr.acquire_finish(0), Err(BleError::AdapterUnavailable));
    assert_eq!(mgr.acquire_begin(), AdapterAction::EnumeratePlatformAdapters);
}

#[test]
fn scan_during_active_scan_rides_the_existing_one() {
    let mut scanner = Scanner::new();
    let first = scanner.scan_begin(5000);
    assert_eq!(first.action, ScanAction::StartPlatformScan);
    assert_eq!(first.wait_ms, 5000);
    let second = scanner.scan_begin(5000);
    assert_eq!(second.action, ScanAction::JoinActiveScan);
    scanner.scan_end();
    let third = scanner.scan_begin(2000);
    assert_eq!(third.action, ScanAction::StartPlatformScan);
    assert_eq!(third.wait_ms, 2000);
}

#[test]
fn discovery_requires_a_live_connection() {
    assert_eq!(require_connected(ConnStatus::Connected), Ok(()));
    assert_eq!(
        require_connected(ConnStatus::Disconnected),
        Err(BleError::NotConnected)
    );
    assert_eq!(
        require_connected(ConnStatus::Connecting),
        Err(BleError::NotConnected)
    );
    assert_eq!(
        require_connected(ConnStatus::Disconnecting),
        Err(BleError::NotConnected)
    );
}

#[test]
fn handle_reports_platform_name_or_unknown() {
    let addr = parse_address("AA:BB:CC:DD:EE:FF").unwrap();
    let named = PeripheralHandle::new(addr, Some(String::from("Thermometer")));
    assert_eq!(named.display_name(), "Thermometer");
    let unnamed = PeripheralHandle::new(addr, None);
    assert_eq!(unnamed.display_name(), "Unknown");
}

#[test]
fn disconnect_invalidates_the_discovery_result() {
    let addr = parse_address("AA:BB:CC:DD:EE:FF").unwrap();
    let mut handle = PeripheralHandle::new(addr, None);
    assert!(handle.services.is_empty());
    handle.record_discovery(vec![ServiceInfo { uuid: 7, characteristics: vec![] }]);
    assert_eq!(handle.services.len(), 1);
    handle.invalidate_discovery();
    assert!(handle.services.is_empty());
}
