use vstd::prelude::*;

verus! {

/// Seconds in one hour.
pub const SECS_PER_HOUR: i64 = 3600;

/// An instant in UTC: whole seconds since the Unix epoch and a sub-second part.
#[derive(Clone, Copy, Debug, PartialEq, Eq, Structural)]
pub struct UtcTime {
    pub secs: i64,
    pub nanos: u32,
}

/// True when `t` lies exactly on an hour boundary: zero minutes, zero seconds
/// and no sub-second part.
pub open spec fn on_hour_boundary(t: UtcTime) -> bool {
    t.secs % 3600 == 0 && t.nanos == 0
}

impl UtcTime {
    /// Whether this instant lies exactly on an hour boundary.
    pub fn is_on_hour(&self) -> (r: bool)
        ensures
            r == on_hour_boundary(*self),
    {
        self.secs % SECS_PER_HOUR == 0 && self.nanos == 0
    }

    /// The start of the hour that holds this instant.
    /// The start of the hour must itself be representable.
    pub fn top_of_hour(&self) -> (r: UtcTime)
        requires
            self.secs >= i64::MIN + 3600,
        ensures
            on_hour_boundary(r),
            r.secs <= self.secs < r.secs + 3600,
    {
        let rem: i64 = self.secs % SECS_PER_HOUR;
        if rem >= 0 {
            UtcTime { secs: self.secs - rem, nanos: 0 }
        } else {
            UtcTime { secs: self.secs - rem - SECS_PER_HOUR, nanos: 0 }
        }
    }
}

} // verus!
