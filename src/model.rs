use vstd::prelude::*;

verus! {

/// A device's 128-bit identifier, chosen by the client that registers it.
#[derive(Clone, Copy, Debug, PartialEq, Eq, Structural)]
pub struct DeviceId {
    pub bits: u128,
}

/// One categorized, timestamped span of device usage.
#[derive(Clone, Debug)]
pub struct Event {
    /// Seconds since the Unix epoch, UTC.
    pub timestamp: i64,
    /// Length of the span in seconds.
    pub duration: u64,
    /// Free-form label assigned by the producer.
    pub category: String,
}

/// What an [`Event`] holds, as mathematical values.
pub ghost struct EventView {
    pub timestamp: i64,
    pub duration: u64,
    pub category: Seq<char>,
}

impl View for Event {
    type V = EventView;

    open spec fn view(&self) -> EventView {
        EventView { timestamp: self.timestamp, duration: self.duration, category: self.category@ }
    }
}

/// The views of a list of events, in order.
pub open spec fn events_view(es: Seq<Event>) -> Seq<EventView> {
    es.map_values(|e: Event| e@)
}

/// One hour bucket of activity for one device, with its events decoded.
#[derive(Clone, Debug)]
pub struct Activity {
    pub id: i64,
    /// The hour boundary, seconds since the Unix epoch, UTC.
    pub timestamp: i64,
    pub device_id: DeviceId,
    pub events: Vec<Event>,
    pub ruleset_id: i64,
}

/// An activity row as the store holds it: the events are an encoded blob.
#[derive(Clone, Debug)]
pub struct ActivityRow {
    pub timestamp: i64,
    pub device_id: DeviceId,
    pub events: Vec<u8>,
    pub ruleset_id: i64,
}

/// A registered user; `password` holds the password's digest.
#[derive(Clone, Debug)]
pub struct User {
    pub id: i64,
    pub username: String,
    pub email: String,
    pub password: String,
}

/// A user to be stored: the password is already a digest.
#[derive(Clone, Debug)]
pub struct NewUser {
    pub username: String,
    pub email: String,
    pub password: String,
}

/// A device with the last time it was seen, if ever, in seconds since the
/// Unix epoch.
#[derive(Clone, Debug)]
pub struct Device {
    pub id: DeviceId,
    pub user_id: i64,
    pub name: String,
    pub last_seen: Option<i64>,
}

/// A device row as the store holds it.
#[derive(Clone, Debug)]
pub struct DeviceRow {
    pub id: DeviceId,
    pub user_id: i64,
    pub name: String,
}

/// Maps a pattern to one or more category labels.
#[derive(Clone, Debug)]
pub struct Rule {
    pub name: Vec<String>,
    pub regex: String,
}

/// A named, ordered list of rules owned by a user.
#[derive(Clone, Debug)]
pub struct Ruleset {
    pub id: i64,
    pub name: String,
    pub rules: Vec<Rule>,
}

/// A ruleset row to be stored: the rules are an encoded blob.
#[derive(Clone, Debug)]
pub struct RulesetRow {
    pub user_id: i64,
    pub name: String,
    pub rules: Vec<u8>,
}

} // verus!
