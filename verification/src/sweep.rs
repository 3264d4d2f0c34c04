//! The periodic sweep and the restart rescan.
//!
//! The sweep re-evaluates every stored row against the clock on a
//! fixed interval; it is the durability backstop for precise tasks a
//! restart lost.  What it decides is derived here; the caller performs
//! each decided transition (fetching the interested users where the
//! reminder needs them) through the lifecycle functions.

use vstd::prelude::*;
use vstd::multiset::Multiset;

use crate::event::Event;
use crate::guard::{plan_action, spec_plan_action};
use crate::scheduler::{PrecisionScheduler, ScheduledTask, SchedulerKey, TaskAction};
use crate::store::lemma_to_multiset_insert;
use crate::{valid_instant, REMINDER_LEAD_SECS, RETIREMENT_WINDOW_SECS};

verus! {

/// The transitions one sweep tick decides, one entry per row that is
/// due, in the order the rows were given (ascending start time when
/// the rows come from the ordered scan).
pub open spec fn spec_sweep_plan(s: Seq<Event>, now: int) -> Seq<TaskAction>
    decreases s.len(),
{
    if s.len() == 0 {
        Seq::empty()
    } else {
        let rest = spec_sweep_plan(s.drop_last(), now);
        match spec_plan_action(s.last(), now) {
            Some(a) => rest.push(a),
            None => rest,
        }
    }
}

/// Evaluate the guard for every row and collect the transitions that
/// are due.  Retirement wins over reminding for each row, as the guard
/// prescribes.
pub fn sweep_plan(events: &Vec<Event>, now: i64) -> (plan: Vec<TaskAction>)
    ensures
        plan@ == spec_sweep_plan(events@, now as int),
{
    let n = events.len();
    let mut plan: Vec<TaskAction> = Vec::new();
    let mut k: usize = 0;
    proof {
        assert(events@.subrange(0, 0) =~= Seq::<Event>::empty());
        assert(plan@ =~= Seq::<TaskAction>::empty());
    }
    while k < n
        invariant
            n == events@.len(),
            0 <= k <= n,
            plan@ == spec_sweep_plan(events@.subrange(0, k as int), now as int),
        decreases n - k,
    {
        proof {
            assert(events@.subrange(0, k + 1).drop_last() =~= events@.subrange(0, k as int));
            assert(events@.subrange(0, k + 1).last() == events@[k as int]);
        }
        match plan_action(&events[k], now) {
            Some(a) => plan.push(a),
            None => {},
        }
        k = k + 1;
    }
    proof {
        assert(events@.subrange(0, n as int) =~= events@);
    }
    plan
}

/// What the restart rescan does with one stored row: a row more than
/// an hour past its start is retired at once; a row past its start has
/// its retirement queued; a still-pending future row has its reminder
/// queued; anything else is left alone.
pub open spec fn spec_startup_task(e: Event, now: int) -> Option<ScheduledTask> {
    if now > e.event_time + RETIREMENT_WINDOW_SECS {
        None
    } else if now > e.event_time {
        Some(
            (ScheduledTask {
                key: SchedulerKey { fire_at: (e.event_time + RETIREMENT_WINDOW_SECS) as i64 },
                action: TaskAction::Retire(e.id),
            }),
        )
    } else if e.reminder_sent == 0 {
        Some(
            (ScheduledTask {
                key: SchedulerKey { fire_at: (e.event_time - REMINDER_LEAD_SECS) as i64 },
                action: TaskAction::Remind(e.id),
            }),
        )
    } else {
        None
    }
}

/// The tasks a restart rescan queues, in row order.
pub open spec fn spec_startup_tasks(s: Seq<Event>, now: int) -> Seq<ScheduledTask>
    decreases s.len(),
{
    if s.len() == 0 {
        Seq::empty()
    } else {
        let rest = spec_startup_tasks(s.drop_last(), now);
        match spec_startup_task(s.last(), now) {
            Some(t) => rest.push(t),
            None => rest,
        }
    }
}

/// The rows a restart rescan retires at once, in row order.
pub open spec fn spec_startup_retires(s: Seq<Event>, now: int) -> Seq<i32>
    decreases s.len(),
{
    if s.len() == 0 {
        Seq::empty()
    } else {
        let rest = spec_startup_retires(s.drop_last(), now);
        if now > s.last().event_time + RETIREMENT_WINDOW_SECS {
            rest.push(s.last().id)
        } else {
            rest
        }
    }
}

/// Rebuild the in-memory queue from the stored rows after a restart,
/// which lost every queued task.  Returns the rows to retire at once;
/// every other due transition is queued on the scheduler.
pub fn startup_rescan(events: &Vec<Event>, sched: &mut PrecisionScheduler, now: i64) -> (retire_now:
    Vec<i32>)
    requires
        old(sched).wf(),
        old(sched)@.len() + events@.len() < usize::MAX,
        valid_instant(now),
    ensures
        final(sched).wf(),
        retire_now@ == spec_startup_retires(events@, now as int),
        final(sched)@.to_multiset() == old(sched)@.to_multiset().add(
            spec_startup_tasks(events@, now as int).to_multiset(),
        ),
{
    broadcast use vstd::seq_lib::group_to_multiset_ensures;
    broadcast use vstd::multiset::group_multiset_axioms;

    let n = events.len();
    let mut retire_now: Vec<i32> = Vec::new();
    let mut k: usize = 0;
    proof {
        assert(events@.subrange(0, 0) =~= Seq::<Event>::empty());
        assert(retire_now@ =~= Seq::<i32>::empty());
        assert(spec_startup_tasks(Seq::<Event>::empty(), now as int).to_multiset() =~= Multiset::<
            ScheduledTask,
        >::empty());
        assert(old(sched)@.to_multiset().add(Multiset::<ScheduledTask>::empty()) =~= old(
            sched,
        )@.to_multiset());
    }
    while k < n
        invariant
            n == events@.len(),
            0 <= k <= n,
            valid_instant(now),
            sched.wf(),
            retire_now@ == spec_startup_retires(events@.subrange(0, k as int), now as int),
            sched@.len() <= old(sched)@.len() + k,
            old(sched)@.len() + events@.len() < usize::MAX,
            sched@.to_multiset() == old(sched)@.to_multiset().add(
                spec_startup_tasks(events@.subrange(0, k as int), now as int).to_multiset(),
            ),
        decreases n - k,
    {
        broadcast use vstd::seq_lib::group_to_multiset_ensures;
        broadcast use vstd::multiset::group_multiset_axioms;

        let ghost prefix = events@.subrange(0, k as int);
        let ghost prefix1 = events@.subrange(0, k + 1);
        proof {
            assert(prefix1.drop_last() =~= prefix);
            assert(prefix1.last() == events@[k as int]);
        }
        let e = &events[k];
        let n128: i128 = now as i128;
        let t128: i128 = e.event_time as i128;
        if n128 > t128 + (RETIREMENT_WINDOW_SECS as i128) {
            retire_now.push(e.id);
            proof {
                assert(spec_startup_task(events@[k as int], now as int) is None);
            }
        } else if n128 > t128 {
            let ghost q0 = sched@;
            let fire_at = e.event_time + RETIREMENT_WINDOW_SECS;
            sched.schedule(fire_at, TaskAction::Retire(e.id));
            proof {
                let task = ScheduledTask {
                    key: SchedulerKey { fire_at },
                    action: TaskAction::Retire(e.id),
                };
                let i = choose|i: int| 0 <= i <= q0.len() && sched@ == q0.insert(i, task);
                lemma_to_multiset_insert(q0, i, task);
                assert(spec_startup_task(events@[k as int], now as int) == Some(task));
                assert(spec_startup_tasks(prefix1, now as int) =~= spec_startup_tasks(
                    prefix,
                    now as int,
                ).push(task));
                assert(sched@.to_multiset() =~= old(sched)@.to_multiset().add(
                    spec_startup_tasks(prefix1, now as int).to_multiset(),
                ));
            }
        } else if e.reminder_sent == 0 {
            let ghost q0 = sched@;
            let fire_at = e.event_time - REMINDER_LEAD_SECS;
            sched.schedule(fire_at, TaskAction::Remind(e.id));
            proof {
                let task = ScheduledTask {
                    key: SchedulerKey { fire_at },
                    action: TaskAction::Remind(e.id),
                };
                let i = choose|i: int| 0 <= i <= q0.len() && sched@ == q0.insert(i, task);
                lemma_to_multiset_insert(q0, i, task);
                assert(spec_startup_task(events@[k as int], now as int) == Some(task));
                assert(spec_startup_tasks(prefix1, now as int) =~= spec_startup_tasks(
                    prefix,
                    now as int,
                ).push(task));
                assert(sched@.to_multiset() =~= old(sched)@.to_multiset().add(
                    spec_startup_tasks(prefix1, now as int).to_multiset(),
                ));
            }
        } else {
            proof {
                assert(spec_startup_task(events@[k as int], now as int) is None);
            }
        }
        k = k + 1;
    }
    proof {
        assert(events@.subrange(0, n as int) =~= events@);
    }
    retire_now
}

} // verus!
