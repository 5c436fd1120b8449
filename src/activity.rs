//! Hour-bucketed activity: validating a report into a row, decoding stored
//! rows, and the last time a device was seen.
use vstd::prelude::*;

use crate::codec::{decode_events, decode_events_spec, encode_events, encode_events_spec};
use crate::error::{is_bad_request, DatastoreError};
use crate::model::{events_view, Activity, ActivityRow, Device, DeviceId, DeviceRow, Event};
use crate::time::{on_hour_boundary, UtcTime};

verus! {

/// The row that a valid report appends.
pub open spec fn report_row_spec(
    device_id: DeviceId,
    ruleset_id: i64,
    hour: UtcTime,
    events: Seq<Event>,
    row: ActivityRow,
) -> bool {
    &&& row.timestamp == hour.secs
    &&& row.device_id == device_id
    &&& row.ruleset_id == ruleset_id
    &&& row.events@ == encode_events_spec(events_view(events))
}

/// Validates a report of one hour of events and gives the row to append.
///
/// The hour must lie exactly on an hour boundary, and the batch must not be
/// empty; nothing is to be stored otherwise.
pub fn report_row(device_id: DeviceId, ruleset_id: i64, hour: UtcTime, events: &Vec<Event>) -> (r:
    Result<ActivityRow, DatastoreError>)
    ensures
        !on_hour_boundary(hour) ==> is_bad_request(r, "hour must be on the hour"@),
        on_hour_boundary(hour) && events@.len() == 0 ==> is_bad_request(
            r,
            "events must not be empty"@,
        ),
        on_hour_boundary(hour) && events@.len() > 0 <==> r is Ok,
        r matches Ok(row) ==> report_row_spec(device_id, ruleset_id, hour, events@, row),
{
    if !hour.is_on_hour() {
        return Err(DatastoreError::BadRequest(String::from_str("hour must be on the hour")));
    }
    if events.len() == 0 {
        return Err(DatastoreError::BadRequest(String::from_str("events must not be empty")));
    }
    Ok(ActivityRow { timestamp: hour.secs, device_id, events: encode_events(events), ruleset_id })
}

/// The activity that a stored row holds, when its events decode.
pub open spec fn decoded_activity_spec(id: i64, row: ActivityRow, a: Activity) -> bool {
    &&& a.id == id
    &&& a.timestamp == row.timestamp
    &&& a.device_id == row.device_id
    &&& a.ruleset_id == row.ruleset_id
    &&& decode_events_spec(row.events@) == Some(events_view(a.events@))
}

/// Decodes the stored row with id `id`; a blob that is not an event batch is
/// a decode error naming the row.
pub fn decode_activity(id: i64, row: &ActivityRow) -> (r: Result<Activity, DatastoreError>)
    ensures
        decode_events_spec(row.events@) is Some <==> r is Ok,
        r matches Ok(a) ==> decoded_activity_spec(id, *row, a),
        r matches Err(e) ==> e == (DatastoreError::Decode { row_id: id }),
{
    match decode_events(row.events.as_slice()) {
        Some(events) => Ok(
            Activity {
                id,
                timestamp: row.timestamp,
                device_id: row.device_id,
                events,
                ruleset_id: row.ruleset_id,
            },
        ),
        None => Err(DatastoreError::Decode { row_id: id }),
    }
}

/// Decodes every stored row of a device, in order. The first row that does
/// not decode fails the whole fetch with a decode error naming it.
pub fn decode_activities(rows: &Vec<(i64, ActivityRow)>) -> (r: Result<Vec<Activity>, DatastoreError>)
    ensures
        r is Ok <==> forall|i: int|
            0 <= i < rows@.len() ==> (decode_events_spec(#[trigger] rows@[i].1.events@) is Some),
        r matches Ok(v) ==> v@.len() == rows@.len() && forall|i: int|
            0 <= i < rows@.len() ==> decoded_activity_spec(rows@[i].0, rows@[i].1, #[trigger] v@[i]),
        r matches Err(e) ==> exists|i: int|
            0 <= i < rows@.len() && e == (DatastoreError::Decode { row_id: rows@[i].0 })
                && decode_events_spec(#[trigger] rows@[i].1.events@) is None && forall|j: int|
                0 <= j < i ==> (decode_events_spec(#[trigger] rows@[j].1.events@) is Some),
{
    let mut out: Vec<Activity> = Vec::new();
    let mut i: usize = 0;
    while i < rows.len()
        invariant
            i <= rows@.len(),
            out@.len() == i,
            forall|j: int| 0 <= j < i ==> (decode_events_spec(#[trigger] rows@[j].1.events@) is Some),
            forall|j: int|
                0 <= j < i ==> decoded_activity_spec(rows@[j].0, rows@[j].1, #[trigger] out@[j]),
        decreases rows@.len() - i,
    {
        let (id, row) = &rows[i];
        match decode_activity(*id, row) {
            Ok(a) => {
                out.push(a);
            },
            Err(e) => {
                return Err(e);
            },
        }
        i = i + 1;
    }
    Ok(out)
}

/// Activity `a` holds an event with index `e`.
pub open spec fn has_event(acts: Seq<Activity>, a: int, e: int) -> bool {
    0 <= a < acts.len() && 0 <= e < acts[a].events@.len()
}

/// The timestamp of event `e` of activity `a`.
pub open spec fn event_time(acts: Seq<Activity>, a: int, e: int) -> i64 {
    acts[a].events@[e].timestamp
}

/// `r` is the latest event timestamp over all activities: absent exactly when
/// they hold no event at all.
pub open spec fn is_last_seen(acts: Seq<Activity>, r: Option<i64>) -> bool {
    match r {
        None => forall|a: int, e: int| !has_event(acts, a, e),
        Some(t) => (exists|a: int, e: int| has_event(acts, a, e) && event_time(acts, a, e) == t)
            && forall|a: int, e: int| has_event(acts, a, e) ==> event_time(acts, a, e) <= t,
    }
}

/// Event `e` of activity `a` comes before event `j` of activity `i`.
pub open spec fn before(a: int, e: int, i: int, j: int) -> bool {
    a < i || (a == i && e < j)
}

/// `r` is the latest event timestamp over the events before event `j` of
/// activity `i`.
pub open spec fn is_last_seen_before(acts: Seq<Activity>, i: int, j: int, r: Option<i64>) -> bool {
    match r {
        None => forall|a: int, e: int| has_event(acts, a, e) && before(a, e, i, j) ==> false,
        Some(t) => (exists|a: int, e: int|
            has_event(acts, a, e) && before(a, e, i, j) && event_time(acts, a, e) == t) && forall|
            a: int,
            e: int,
        | has_event(acts, a, e) && before(a, e, i, j) ==> event_time(acts, a, e) <= t,
    }
}

/// The last time a device was seen: the latest timestamp of any event in any
/// of its activities, or `None` when there is none.
pub fn last_seen(activities: &Vec<Activity>) -> (r: Option<i64>)
    ensures
        is_last_seen(activities@, r),
{
    let ghost acts = activities@;
    let mut best: Option<i64> = None;
    let mut i: usize = 0;
    while i < activities.len()
        invariant
            acts == activities@,
            i <= acts.len(),
            is_last_seen_before(acts, i as int, 0, best),
        decreases acts.len() - i,
    {
        let events = &activities[i].events;
        let mut j: usize = 0;
        while j < events.len()
            invariant
                acts == activities@,
                i < acts.len(),
                *events == acts[i as int].events,
                j <= events@.len(),
                is_last_seen_before(acts, i as int, j as int, best),
            decreases events@.len() - j,
        {
            let t = events[j].timestamp;
            let ghost old_best = best;
            match best {
                None => {
                    best = Some(t);
                },
                Some(b) => {
                    if t > b {
                        best = Some(t);
                    }
                },
            }
            proof {
                assert(has_event(acts, i as int, j as int));
                assert(event_time(acts, i as int, j as int) == t);
                match best {
                    Some(bt) => {
                        assert forall|a: int, e: int|
                            has_event(acts, a, e) && before(
                                a,
                                e,
                                i as int,
                                j + 1,
                            ) implies event_time(acts, a, e) <= bt by {
                            if before(a, e, i as int, j as int) {
                                if let Some(ob) = old_best {
                                    assert(event_time(acts, a, e) <= ob);
                                } else {
                                }
                            }
                        }
                        if bt == t {
                            assert(has_event(acts, i as int, j as int) && before(
                                i as int,
                                j as int,
                                i as int,
                                j + 1,
                            ) && event_time(acts, i as int, j as int) == bt);
                        } else {
                            let ob = old_best.unwrap();
                            let (a, e) = choose|a: int, e: int|
                                has_event(acts, a, e) && before(a, e, i as int, j as int)
                                    && event_time(acts, a, e) == ob;
                            assert(has_event(acts, a, e) && before(a, e, i as int, j + 1)
                                && event_time(acts, a, e) == bt);
                        }
                    },
                    None => {},
                }
            }
            j = j + 1;
        }
        proof {
            match best {
                None => {
                    assert forall|a: int, e: int|
                        has_event(acts, a, e) && before(a, e, i + 1, 0) implies false by {
                        assert(before(a, e, i as int, j as int));
                    }
                },
                Some(bt) => {
                    assert forall|a: int, e: int|
                        has_event(acts, a, e) && before(a, e, i + 1, 0) implies event_time(
                        acts,
                        a,
                        e,
                    ) <= bt by {
                        assert(before(a, e, i as int, j as int));
                    }
                    let (a, e) = choose|a: int, e: int|
                        has_event(acts, a, e) && before(a, e, i as int, j as int) && event_time(
                            acts,
                            a,
                            e,
                        ) == bt;
                    assert(has_event(acts, a, e) && before(a, e, i + 1, 0) && event_time(
                        acts,
                        a,
                        e,
                    ) == bt);
                },
            }
        }
        i = i + 1;
    }
    proof {
        match best {
            None => {
                assert forall|a: int, e: int| !has_event(acts, a, e) by {
                    if has_event(acts, a, e) {
                        assert(before(a, e, i as int, 0));
                    }
                }
            },
            Some(bt) => {
                assert forall|a: int, e: int| has_event(acts, a, e) implies event_time(
                    acts,
                    a,
                    e,
                ) <= bt by {
                    assert(before(a, e, i as int, 0));
                }
                let (a, e) = choose|a: int, e: int|
                    has_event(acts, a, e) && before(a, e, i as int, 0) && event_time(acts, a, e)
                        == bt;
                assert(has_event(acts, a, e) && event_time(acts, a, e) == bt);
            },
        }
    }
    best
}

/// A device with its last-seen time, computed from all of its activities.
pub fn device_with_last_seen(row: DeviceRow, activities: &Vec<Activity>) -> (r: Device)
    ensures
        r.id == row.id,
        r.user_id == row.user_id,
        r.name == row.name,
        is_last_seen(activities@, r.last_seen),
{
    Device { id: row.id, user_id: row.user_id, name: row.name, last_seen: last_seen(activities) }
}

} // verus!
