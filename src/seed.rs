//! Sample data for a fresh development store.
use vstd::prelude::*;
use vstd::string::*;

use crate::model::{Event, Rule};
use crate::time::{on_hour_boundary, UtcTime};

verus! {

/// Two rules, "Work" and "Media", each matching everything.
pub fn sample_rules() -> (r: Vec<Rule>)
    ensures
        r@.len() == 2,
        r@[0].name@.len() == 1 && r@[0].name@[0]@ == "Work"@ && r@[0].regex@ == ".*"@,
        r@[1].name@.len() == 1 && r@[1].name@[0]@ == "Media"@ && r@[1].regex@ == ".*"@,
{
    let mut work: Vec<String> = Vec::new();
    work.push(String::from_str("Work"));
    let mut media: Vec<String> = Vec::new();
    media.push(String::from_str("Media"));
    let mut rules: Vec<Rule> = Vec::new();
    rules.push(Rule { name: work, regex: String::from_str(".*") });
    rules.push(Rule { name: media, regex: String::from_str(".*") });
    rules
}

/// Two one-minute events in the given hour: "Work" at its start, then
/// "Media" a minute later.
pub fn sample_events(hour: UtcTime) -> (r: Vec<Event>)
    requires
        on_hour_boundary(hour),
        hour.secs <= i64::MAX - 60,
    ensures
        r@.len() == 2,
        r@[0].timestamp == hour.secs && r@[0].duration == 60 && r@[0].category@ == "Work"@,
        r@[1].timestamp == hour.secs + 60 && r@[1].duration == 60 && r@[1].category@ == "Media"@,
{
    let mut events: Vec<Event> = Vec::new();
    events.push(Event { timestamp: hour.secs, duration: 60, category: String::from_str("Work") });
    events.push(
        Event { timestamp: hour.secs + 60, duration: 60, category: String::from_str("Media") },
    );
    events
}

} // verus!
