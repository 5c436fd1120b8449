//! Properties that relate several operations of the store.
use vstd::prelude::*;

use crate::activity::{decoded_activity_spec, event_time, has_event, is_last_seen, report_row_spec};
use crate::codec::{encodable_event, lemma_events_round_trip};
use crate::model::{events_view, Activity, ActivityRow, DeviceId, Event};
use crate::time::UtcTime;

verus! {

/// Reporting then fetching: the row appended for a report decodes to an
/// activity whose events equal the reported ones, in the same order.
pub proof fn lemma_report_then_fetch(
    device_id: DeviceId,
    ruleset_id: i64,
    hour: UtcTime,
    events: Seq<Event>,
    row: ActivityRow,
    id: i64,
    fetched: Activity,
)
    requires
        forall|i: int| 0 <= i < events.len() ==> encodable_event(#[trigger] events[i]@),
        report_row_spec(device_id, ruleset_id, hour, events, row),
        decoded_activity_spec(id, row, fetched),
    ensures
        events_view(fetched.events@) == events_view(events),
        fetched.timestamp == hour.secs,
        fetched.device_id == device_id,
        fetched.ruleset_id == ruleset_id,
{
    let es = events_view(events);
    assert forall|i: int| 0 <= i < es.len() implies encodable_event(#[trigger] es[i]) by {
        assert(es[i] == events[i]@);
    }
    lemma_events_round_trip(es);
}


/// The latest timestamp in a non-empty batch of events.
pub open spec fn max_timestamp(es: Seq<Event>) -> i64
    recommends
        es.len() > 0,
    decreases es.len(),
{
    if es.len() <= 1 {
        es[0].timestamp
    } else {
        let rest = max_timestamp(es.drop_first());
        if es[0].timestamp >= rest {
            es[0].timestamp
        } else {
            rest
        }
    }
}

/// The latest timestamp of a batch is one of its timestamps, and no
/// timestamp of the batch is later.
proof fn lemma_max_timestamp(es: Seq<Event>)
    requires
        es.len() > 0,
    ensures
        exists|k: int| 0 <= k < es.len() && es[k].timestamp == max_timestamp(es),
        forall|k: int| 0 <= k < es.len() ==> es[k].timestamp <= max_timestamp(es),
    decreases es.len(),
{
    if es.len() > 1 {
        let tail = es.drop_first();
        lemma_max_timestamp(tail);
        let k0 = choose|k: int| 0 <= k < tail.len() && tail[k].timestamp == max_timestamp(tail);
        assert(es[k0 + 1] == tail[k0]);
        assert forall|k: int| 0 <= k < es.len() implies es[k].timestamp <= max_timestamp(es) by {
            if k > 0 {
                assert(es[k] == tail[k - 1]);
            }
        }
    } else {
        assert(es[0].timestamp == max_timestamp(es));
    }
}

/// A device with no activity has never been seen.
pub proof fn lemma_last_seen_without_activity(r: Option<i64>)
    requires
        is_last_seen(Seq::<Activity>::empty(), r),
    ensures
        r is None,
{
    if let Some(t) = r {
        let (a, e) = choose|a: int, e: int|
            has_event(Seq::<Activity>::empty(), a, e) && event_time(Seq::<Activity>::empty(), a, e)
                == t;
    }
}

/// After a single report, a device was last seen at the latest event
/// timestamp of that batch, whatever the hour the batch was filed under.
pub proof fn lemma_last_seen_after_one_report(a: Activity, r: Option<i64>)
    requires
        a.events@.len() > 0,
        is_last_seen(seq![a], r),
    ensures
        r == Some(max_timestamp(a.events@)),
{
    let acts = seq![a];
    let es = a.events@;
    lemma_max_timestamp(es);
    let m = max_timestamp(es);
    let k = choose|k: int| 0 <= k < es.len() && es[k].timestamp == m;
    assert(has_event(acts, 0, k));
    match r {
        None => {
            assert(!has_event(acts, 0, k));
        },
        Some(t) => {
            assert(event_time(acts, 0, k) == m);
            let (i, e) = choose|i: int, e: int| has_event(acts, i, e) && event_time(acts, i, e) == t;
            assert(i == 0);
            assert(es[e].timestamp <= m);
        },
    }
}


/// Two reports with different batches give rows with different event blobs,
/// so neither row can stand for the other: both stay distinguishable in the
/// append-only log, whatever hour and device they share.
pub proof fn lemma_distinct_batches_distinct_rows(
    device_id: DeviceId,
    ruleset_id: i64,
    hour: UtcTime,
    first: Seq<Event>,
    second: Seq<Event>,
    row1: ActivityRow,
    row2: ActivityRow,
)
    requires
        forall|i: int| 0 <= i < first.len() ==> encodable_event(#[trigger] first[i]@),
        forall|i: int| 0 <= i < second.len() ==> encodable_event(#[trigger] second[i]@),
        events_view(first) != events_view(second),
        report_row_spec(device_id, ruleset_id, hour, first, row1),
        report_row_spec(device_id, ruleset_id, hour, second, row2),
    ensures
        row1.events@ != row2.events@,
{
    let e1 = events_view(first);
    let e2 = events_view(second);
    assert forall|i: int| 0 <= i < e1.len() implies encodable_event(#[trigger] e1[i]) by {
        assert(e1[i] == first[i]@);
    }
    assert forall|i: int| 0 <= i < e2.len() implies encodable_event(#[trigger] e2[i]) by {
        assert(e2[i] == second[i]@);
    }
    lemma_events_round_trip(e1);
    lemma_events_round_trip(e2);
}

} // verus!
