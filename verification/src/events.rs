//! The activity events the daemon records.

use crate::time::UtcDateTime;
use crate::time::now_utc;
use vstd::prelude::*;

verus! {

/// The identity of a window that gained focus.
#[derive(Clone, Debug)]
pub struct Focused {
    pub title: String,
    pub id: String,
    pub pid: i32,
}

/// One kind of recorded activity.
#[derive(Clone, Debug)]
pub enum Event {
    /// The compositor reports a window has gained focus.
    Focused(Box<Focused>),
    /// An interval liveness check.
    Alive,
    /// The session was locked or went to sleep.
    Lock,
    /// The session was unlocked or resumed.
    Unlock,
    /// The session became idle.
    Idle,
    /// The session became active again.
    Active,
}

/// An event paired with the UTC timestamp at which it was observed.
#[derive(Clone, Debug)]
pub struct TimedEvent {
    pub timestamp: UtcDateTime,
    pub event: Event,
}

/// Stamps an event with the current UTC time.
pub fn timed_event(event: Event) -> (r: TimedEvent)
    ensures
        r.event == event,
        r.timestamp.in_bounds(),
{
    TimedEvent { timestamp: now_utc(), event }
}

} // verus!
