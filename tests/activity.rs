use device_activity::activity::{decode_activities, decode_activity, device_with_last_seen, last_seen, report_row};
use device_activity::codec::{decode_events, encode_events, encode_rules};
use device_activity::error::DatastoreError;
use device_activity::model::{Activity, ActivityRow, DeviceId, DeviceRow, Event, Rule};
use device_activity::time::UtcTime;

const H: i64 = 1_700_002_800; // 2023-11-14T23:00:00Z

fn ev(ts: i64, dur: u64, cat: &str) -> Event {
    Event { timestamp: ts, duration: dur, category: cat.to_string() }
}

fn same(a: &[Event], b: &[Event]) -> bool {
    a.len() == b.len()
        && a.iter().zip(b.iter()).all(|(x, y)| {
            x.timestamp == y.timestamp && x.duration == y.duration && x.category == y.category
        })
}

fn dev() -> DeviceId {
    DeviceId { bits: 0x1234_5678_9abc_def0_1234_5678_9abc_def0 }
}

#[test]
fn report_then_fetch_round_trips_events_in_order() {
    let events = vec![ev(H, 60, "Work"), ev(H + 60, 60, "Media"), ev(H + 30, 5, "Wörk \"quoted\" ✓")];
    let row = report_row(dev(), 7, UtcTime { secs: H, nanos: 0 }, &events).unwrap();
    assert_eq!(row.timestamp, H);
    assert_eq!(row.ruleset_id, 7);
    assert_eq!(row.device_id, dev());
    let a = decode_activity(42, &row).unwrap();
    assert_eq!(a.id, 42);
    assert_eq!(a.timestamp, H);
    assert_eq!(a.device_id, dev());
    assert_eq!(a.ruleset_id, 7);
    assert!(same(&a.events, &events));
}

#[test]
fn round_trip_keeps_extreme_values() {
    let events = vec![ev(i64::MIN, u64::MAX, ""), ev(i64::MAX, 0, "x"), ev(-1, 1, "neg")];
    let blob = encode_events(&events);
    let back = decode_events(&blob).unwrap();
    assert!(same(&back, &events));
}

#[test]
fn report_off_the_hour_is_rejected() {
    let events = vec![ev(H, 60, "Work")];
    for t in [
        UtcTime { secs: H + 60, nanos: 0 },
        UtcTime { secs: H + 1, nanos: 0 },
        UtcTime { secs: H, nanos: 1 },
        UtcTime { secs: H + 1800, nanos: 500 },
    ] {
        match report_row(dev(), 1, t, &events) {
            Err(DatastoreError::BadRequest(m)) => assert_eq!(m, "hour must be on the hour"),
            other => panic!("expected a bad request, got {:?}", other),
        }
    }
}

#[test]
fn report_accepts_negative_hours() {
    let events = vec![ev(-3600, 60, "Work")];
    assert!(report_row(dev(), 1, UtcTime { secs: -3600, nanos: 0 }, &events).is_ok());
    assert!(report_row(dev(), 1, UtcTime { secs: -1800, nanos: 0 }, &events).is_err());
}

#[test]
fn report_of_empty_batch_is_rejected() {
    match report_row(dev(), 1, UtcTime { secs: H, nanos: 0 }, &Vec::new()) {
        Err(DatastoreError::BadRequest(m)) => assert_eq!(m, "events must not be empty"),
        other => panic!("expected a bad request, got {:?}", other),
    }
}

#[test]
fn two_reports_for_one_hour_give_two_distinct_rows() {
    let hour = UtcTime { secs: H, nanos: 0 };
    let r1 = report_row(dev(), 1, hour, &vec![ev(H, 60, "Work")]).unwrap();
    let r2 = report_row(dev(), 1, hour, &vec![ev(H + 5, 60, "Media")]).unwrap();
    assert_ne!(r1.events, r2.events);
    let rows = vec![(1, r1), (2, r2)];
    let fetched = decode_activities(&rows).unwrap();
    assert_eq!(fetched.len(), 2);
    assert_eq!(fetched[0].id, 1);
    assert_eq!(fetched[1].id, 2);
    assert_eq!(fetched[0].events[0].category, "Work");
    assert_eq!(fetched[1].events[0].category, "Media");
}

#[test]
fn encoding_of_one_event_is_exact() {
    let blob = encode_events(&vec![ev(0x0102, 60, "Wé")]);
    let expected: Vec<u8> = vec![
        1, b't', 0x02, 0x01, 0, 0, 0, 0, 0, 0, b'd', 60, 0, 0, 0, 0, 0, 0, 0, b'c', 3, 0, 0, 0, 0, 0, 0,
        0, b'W', 0xC3, 0xA9,
    ];
    assert_eq!(blob, expected);
    assert_eq!(encode_events(&Vec::new()), vec![1u8]);
}

#[test]
fn encoding_of_rules_is_exact() {
    let rules = vec![Rule { name: vec!["A".to_string(), "Bc".to_string()], regex: ".*".to_string() }];
    let blob = encode_rules(&rules);
    let expected: Vec<u8> = vec![
        1, b'r', 2, 0, 0, 0, 0, 0, 0, 0, 1, 0, 0, 0, 0, 0, 0, 0, b'A', 2, 0, 0, 0, 0, 0, 0, 0, b'B',
        b'c', b'p', 2, 0, 0, 0, 0, 0, 0, 0, b'.', b'*',
    ];
    assert_eq!(blob, expected);
}

#[test]
fn corrupt_blobs_do_not_decode() {
    let good = encode_events(&vec![ev(H, 60, "Work")]);
    assert!(decode_events(&[]).is_none());
    assert!(decode_events(&[2]).is_none());
    assert!(decode_events(&good[..good.len() - 1]).is_none());
    let mut bad_tag = good.clone();
    bad_tag[1] = b'x';
    assert!(decode_events(&bad_tag).is_none());
    let mut bad_utf8 = good.clone();
    let n = bad_utf8.len();
    bad_utf8[n - 1] = 0xFF;
    assert!(decode_events(&bad_utf8).is_none());
    let mut trailing = good.clone();
    trailing.push(0);
    assert!(decode_events(&trailing).is_none());
    assert_eq!(decode_events(&[1]).unwrap().len(), 0);
}

#[test]
fn fetch_with_a_corrupt_row_names_it() {
    let ok = report_row(dev(), 1, UtcTime { secs: H, nanos: 0 }, &vec![ev(H, 1, "a")]).unwrap();
    let bad = ActivityRow { timestamp: H, device_id: dev(), events: vec![9, 9], ruleset_id: 1 };
    let rows = vec![(1, ok.clone()), (5, bad.clone()), (6, bad)];
    match decode_activities(&rows) {
        Err(DatastoreError::Decode { row_id }) => assert_eq!(row_id, 5),
        other => panic!("expected a decode error, got {:?}", other),
    }
    assert_eq!(decode_activities(&vec![(1, ok)]).unwrap().len(), 1);
    assert_eq!(decode_activities(&Vec::new()).unwrap().len(), 0);
}

fn act(id: i64, hour: i64, events: Vec<Event>) -> Activity {
    Activity { id, timestamp: hour, device_id: dev(), events, ruleset_id: 1 }
}

#[test]
fn last_seen_is_absent_without_activity() {
    assert_eq!(last_seen(&Vec::new()), None);
    assert_eq!(last_seen(&vec![act(1, H, Vec::new())]), None);
}

#[test]
fn last_seen_after_one_report_is_latest_event_not_hour() {
    let acts = vec![act(1, H, vec![ev(H + 10, 5, "a"), ev(H + 3000, 5, "b"), ev(H + 20, 5, "c")])];
    assert_eq!(last_seen(&acts), Some(H + 3000));
}

#[test]
fn last_seen_spans_all_rows() {
    let acts = vec![
        act(1, H, vec![ev(H + 10, 5, "a")]),
        act(2, H - 3600, vec![ev(H - 100, 5, "b")]),
        act(3, H + 3600, vec![ev(H + 3700, 5, "c"), ev(H + 3650, 5, "d")]),
        act(4, H, Vec::new()),
    ];
    assert_eq!(last_seen(&acts), Some(H + 3700));
    let d = device_with_last_seen(DeviceRow { id: dev(), user_id: 3, name: "laptop".to_string() }, &acts);
    assert_eq!(d.id, dev());
    assert_eq!(d.user_id, 3);
    assert_eq!(d.name, "laptop");
    assert_eq!(d.last_seen, Some(H + 3700));
}
