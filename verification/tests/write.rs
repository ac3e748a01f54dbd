use ble_central::discovery::{CharacteristicInfo, ServiceInfo};
use ble_central::errors::BleError;
use ble_central::write::{summarize_writes, write_targets};

#[test]
fn no_writable_characteristic_means_success_with_zero_affected() {
    let services = vec![
        ServiceInfo {
            uuid: 1,
            characteristics: vec![
                CharacteristicInfo { uuid: 10, notify: true, write_without_response: false },
                CharacteristicInfo { uuid: 11, notify: false, write_without_response: false },
            ],
        },
        ServiceInfo { uuid: 2, characteristics: vec![] },
    ];
    let targets = write_targets(&services);
    assert!(targets.is_empty());
    let results: Vec<bool> = Vec::new();
    assert_eq!(summarize_writes(&results), Ok(0));
}

#[test]
fn write_targets_keeps_only_flagged_characteristics_in_order() {
    let services = vec![
        ServiceInfo {
            uuid: 1,
            characteristics: vec![
                CharacteristicInfo { uuid: 10, notify: false, write_without_response: true },
                CharacteristicInfo { uuid: 11, notify: true, write_without_response: false },
            ],
        },
        ServiceInfo {
            uuid: 2,
            characteristics: vec![
                CharacteristicInfo { uuid: 20, notify: false, write_without_response: true },
            ],
        },
    ];
    let targets = write_targets(&services);
    let uuids: Vec<u128> = targets.iter().map(|c| c.uuid).collect();
    assert_eq!(uuids, vec![10, 20]);
}

#[test]
fn all_accepted_writes_report_the_affected_count() {
    let results = vec![true, true, true];
    assert_eq!(summarize_writes(&results), Ok(3));
}

#[test]
fn one_refused_write_surfaces_write_error() {
    let results = vec![true, false, true];
    assert_eq!(summarize_writes(&results), Err(BleError::WriteError));
}
