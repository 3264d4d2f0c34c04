//! Event-lifecycle engine for scheduled community events.
//!
//! An event is drafted, confirmed (publicly announced and persisted),
//! reminded shortly before it starts, and finally retired once it is an
//! hour old.  Two independent triggers drive the transitions: a precise
//! one-shot task queue (`scheduler`) and a periodic full-table sweep
//! (`sweep`).  The persisted `reminder_sent` flag is the only durable
//! guard against a transition running twice.

use vstd::prelude::*;

pub mod commands;
pub mod draft;
pub mod errors;
pub mod event;
pub mod guard;
pub mod lifecycle;
pub mod links;
pub mod messages;
pub mod msgid;
pub mod scheduler;
pub mod settings;
pub mod store;
pub mod sweep;
pub mod times;

verus! {

/// A reminder becomes due this many seconds before an event starts.
pub const REMINDER_LEAD_SECS: i64 = 600;

/// An event is retired this many seconds after it starts.
pub const RETIREMENT_WINDOW_SECS: i64 = 3600;

/// The sweep loop re-evaluates every stored event at this interval.
pub const SWEEP_INTERVAL_SECS: i64 = 60;

/// Bound on the instants this library computes with, far beyond any
/// calendar date the time-zone conversion can produce, and small enough
/// that adding or subtracting the windows above can never overflow `i64`.
pub const MAX_INSTANT_SECS: i64 = 0x20_0000_0000_0000;

/// An instant (seconds since the Unix epoch, UTC) safe for window arithmetic.
pub open spec fn valid_instant(t: i64) -> bool {
    -MAX_INSTANT_SECS <= t <= MAX_INSTANT_SECS
}

/// Runtime check matching `valid_instant`.
pub fn instant_is_valid(t: i64) -> (r: bool)
    ensures
        r == valid_instant(t),
{
    -MAX_INSTANT_SECS <= t && t <= MAX_INSTANT_SECS
}

} // verus!
