use ble_central::discovery::{CharacteristicInfo, ServiceInfo};
use ble_central::errors::BleError;
use ble_central::notify::{
    consume_stream, notify_targets, subscribe_result, take_limited, NotificationCollector,
    NotificationEvent,
};
use ble_central::DEFAULT_EVENT_LIMIT;

fn event(n: u8) -> NotificationEvent {
    NotificationEvent { characteristic: 0x1234, payload: vec![n] }
}

#[test]
fn six_events_with_limit_four_yield_first_four_in_order() {
    let events = vec![event(0), event(1), event(2), event(3), event(4), event(5)];
    let consumed = consume_stream(events, DEFAULT_EVENT_LIMIT);
    assert_eq!(consumed.len(), 4);
    for (i, e) in consumed.iter().enumerate() {
        assert_eq!(e.payload, vec![i as u8]);
    }
}

#[test]
fn take_limited_matches_streaming_consumption() {
    let events = vec![event(0), event(1), event(2), event(3), event(4), event(5)];
    let taken = take_limited(events.clone(), 4);
    let streamed = consume_stream(events, 4);
    assert_eq!(taken, streamed);
}

#[test]
fn short_stream_is_consumed_whole() {
    let events = vec![event(7), event(8)];
    let consumed = consume_stream(events, DEFAULT_EVENT_LIMIT);
    assert_eq!(consumed.len(), 2);
    assert_eq!(consumed[0].payload, vec![7]);
    assert_eq!(consumed[1].payload, vec![8]);
}

#[test]
fn zero_limit_consumes_nothing() {
    let events = vec![event(1), event(2)];
    assert!(consume_stream(events, 0).is_empty());
}

#[test]
fn collector_declines_offers_beyond_its_bound() {
    let mut c = NotificationCollector::new(2);
    assert!(c.wants_more());
    assert!(c.offer(event(1)));
    assert!(c.offer(event(2)));
    assert!(!c.wants_more());
    assert!(!c.offer(event(3)));
    assert_eq!(c.count(), 2);
    let events = c.into_events();
    assert_eq!(events[0].payload, vec![1]);
    assert_eq!(events[1].payload, vec![2]);
}

#[test]
fn notify_targets_keeps_only_flagged_characteristics_in_order() {
    let services = vec![
        ServiceInfo {
            uuid: 1,
            characteristics: vec![
                CharacteristicInfo { uuid: 10, notify: true, write_without_response: false },
                CharacteristicInfo { uuid: 11, notify: false, write_without_response: true },
            ],
        },
        ServiceInfo {
            uuid: 2,
            characteristics: vec![
                CharacteristicInfo { uuid: 20, notify: false, write_without_response: false },
                CharacteristicInfo { uuid: 21, notify: true, write_without_response: false },
            ],
        },
    ];
    let targets = notify_targets(&services);
    let uuids: Vec<u128> = targets.iter().map(|c| c.uuid).collect();
    assert_eq!(uuids, vec![10, 21]);
}

#[test]
fn peripheral_without_notify_characteristics_has_no_targets() {
    let services = vec![ServiceInfo {
        uuid: 1,
        characteristics: vec![CharacteristicInfo {
            uuid: 10,
            notify: false,
            write_without_response: true,
        }],
    }];
    assert!(notify_targets(&services).is_empty());
}

#[test]
fn refused_subscribe_surfaces_subscription_error() {
    assert_eq!(subscribe_result(true), Ok(()));
    assert_eq!(subscribe_result(false), Err(BleError::SubscriptionError));
}
