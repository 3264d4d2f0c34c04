//! The per-event transition guard: a pure function of the stored fields
//! and the current instant, shared by the precise task queue and the
//! periodic sweep.

use vstd::prelude::*;

use crate::event::Event;
use crate::scheduler::TaskAction;
use crate::{REMINDER_LEAD_SECS, RETIREMENT_WINDOW_SECS};

verus! {

/// The reminder window: from ten minutes before the start until the start.
pub open spec fn spec_reminder_due(scheduled: int, now: int) -> bool {
    scheduled - REMINDER_LEAD_SECS <= now < scheduled
}

/// An event is due for retirement an hour after its start.
pub open spec fn spec_retire_due(scheduled: int, now: int) -> bool {
    now >= scheduled + RETIREMENT_WINDOW_SECS
}

/// A reminder should fire only inside the window and only while the
/// durable flag still reads "pending".
pub open spec fn spec_should_remind(scheduled: int, reminder_sent: int, now: int) -> bool {
    spec_reminder_due(scheduled, now) && reminder_sent == 0
}

/// Retirement is due regardless of the reminder flag.
pub open spec fn spec_should_retire(scheduled: int, now: int) -> bool {
    spec_retire_due(scheduled, now)
}

/// Both guard bits, as one evaluation over one instant.
pub struct TransitionGuard {
    /// The reminder step should run now.
    pub should_remind: bool,
    /// The retirement step should run now.
    pub should_retire: bool,
}

/// Evaluate the guard for a stored row at instant `now`.
///
/// Total over all instants: the comparisons are carried out in `i128`,
/// so no window arithmetic can overflow.
pub fn eval_guard(event: &Event, now: i64) -> (g: TransitionGuard)
    ensures
        g.should_remind == spec_should_remind(
            event.event_time as int,
            event.reminder_sent as int,
            now as int,
        ),
        g.should_retire == spec_should_retire(event.event_time as int, now as int),
{
    let t: i128 = event.event_time as i128;
    let n: i128 = now as i128;
    let reminder_due = t - (REMINDER_LEAD_SECS as i128) <= n && n < t;
    let retire_due = n >= t + (RETIREMENT_WINDOW_SECS as i128);
    TransitionGuard {
        should_remind: reminder_due && event.reminder_sent == 0,
        should_retire: retire_due,
    }
}

/// What one evaluation decides for one row: retirement wins over the
/// reminder, so an event more than an hour old is removed without a
/// late reminder.
pub open spec fn spec_plan_action(e: Event, now: int) -> Option<TaskAction> {
    if spec_retire_due(e.event_time as int, now) {
        Some(TaskAction::Retire(e.id))
    } else if spec_should_remind(e.event_time as int, e.reminder_sent as int, now) {
        Some(TaskAction::Remind(e.id))
    } else {
        None
    }
}

/// Decide the transition, if any, for a stored row at instant `now`.
pub fn plan_action(event: &Event, now: i64) -> (r: Option<TaskAction>)
    ensures
        r == spec_plan_action(*event, now as int),
{
    let g = eval_guard(event, now);
    if g.should_retire {
        Some(TaskAction::Retire(event.id))
    } else if g.should_remind {
        Some(TaskAction::Remind(event.id))
    } else {
        None
    }
}

/// Law: for every event with the flag still pending and `now` anywhere in
/// the window from ten minutes before the start up to (excluding) the
/// start, the guard reads "should remind".
pub proof fn lemma_remind_window(scheduled: int, reminder_sent: int, now: int)
    requires
        reminder_sent == 0,
        scheduled - REMINDER_LEAD_SECS <= now < scheduled,
    ensures
        spec_should_remind(scheduled, reminder_sent, now),
{
}

/// Law: once an event is an hour past its start, retirement is due
/// whatever the reminder flag holds, and the planned transition is the
/// retirement, never a late reminder.
pub proof fn lemma_retire_wins(e: Event, now: int)
    requires
        now >= e.event_time + RETIREMENT_WINDOW_SECS,
    ensures
        spec_should_retire(e.event_time as int, now),
        spec_plan_action(e, now) == Some(TaskAction::Retire(e.id)),
{
}

} // verus!
