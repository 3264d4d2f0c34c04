//! The transitions: reminding and retiring, under racing triggers.
//!
//! Both the precise task queue and the periodic sweep may decide to
//! act on the same row.  The durable `reminder_sent` flag, re-read and
//! checked immediately before acting, keeps the reminder at-least-once
//! rather than unbounded; retirement is idempotent, so racing
//! retirements are harmless.  Transport work is returned as effect
//! values for the caller to perform — and for the reminder, the flag
//! is written only after the deliveries, by a separate `mark_reminded`
//! call: a crash in between duplicates a reminder on the next sweep,
//! never loses one.

use vstd::prelude::*;

use crate::event::{Event, NewEvent};
use crate::guard::{eval_guard, spec_retire_due, spec_should_remind};
use crate::messages::{reminder_text, spec_reminder_text};
use crate::msgid::{parse_msg_id, spec_parse_msg_id};
use crate::scheduler::{PrecisionScheduler, ScheduledTask, SchedulerKey, TaskAction};
use crate::store::{
    contains_id, lemma_remove_id_absent, lemma_remove_id_idempotent, lemma_remove_id_noop,
    spec_find_by_id, spec_remove_id, spec_set_reminder, with_reminder, EventStore,
};
use crate::{instant_is_valid, valid_instant, REMINDER_LEAD_SECS, RETIREMENT_WINDOW_SECS};

verus! {

/// The derived lifecycle state of an event id, read off the store:
/// a present row is `Pending` until its reminder flag is set, then
/// `Reminded`; an absent row is `Retired`, the terminal state.
#[derive(Clone, Copy, Debug, PartialEq, Eq, Structural)]
pub enum LifecycleState {
    /// Stored, announcement posted, reminder not yet delivered.
    Pending,
    /// Stored, reminder delivered.
    Reminded,
    /// Removed from the store; nothing more will happen to it.
    Retired,
}

/// The state the stored rows assign to an id.
pub open spec fn spec_lifecycle_state(s: Seq<Event>, id: i32) -> LifecycleState {
    match spec_find_by_id(s, id) {
        Some(e) => if e.reminder_sent == 0 {
            LifecycleState::Pending
        } else {
            LifecycleState::Reminded
        },
        None => LifecycleState::Retired,
    }
}

/// Read the derived state of an event id.
pub fn lifecycle_state(store: &EventStore, id: i32) -> (r: LifecycleState)
    ensures
        r == spec_lifecycle_state(store@, id),
{
    match store.get_event_by_id(id) {
        Some(e) => {
            if e.reminder_sent == 0 {
                LifecycleState::Pending
            } else {
                LifecycleState::Reminded
            }
        },
        None => LifecycleState::Retired,
    }
}

/// One piece of transport work for the caller to perform.  Failures
/// there are logged and swallowed; they never reach the verified core.
#[derive(Debug)]
pub enum Effect {
    /// Send this text as a direct message to this user.
    SendDm { user_id: u64, text: String },
    /// Delete the public announcement with this message id; deleting
    /// one that is already gone is not an error.
    DeleteAnnouncement { message_id: u64 },
}

/// `e` is a direct message to `user` carrying `text`.
pub open spec fn is_dm(e: Effect, user: u64, text: Seq<char>) -> bool {
    e matches Effect::SendDm { user_id: u, text: t } && u == user && t@ == text
}

/// `e` deletes the announcement with message id `mid`.
pub open spec fn is_delete(e: Effect, mid: u64) -> bool {
    e matches Effect::DeleteAnnouncement { message_id: m } && m == mid
}

/// `effects` is exactly one direct message per user in `users`, in
/// order, all carrying `text`.
pub open spec fn dm_effects_for(effects: Seq<Effect>, users: Seq<u64>, text: Seq<char>) -> bool {
    effects.len() == users.len() && forall|i: int|
        0 <= i < users.len() ==> is_dm(#[trigger] effects[i], users[i], text)
}

/// Build one direct message per user, all carrying the same text.
pub(crate) fn dm_all(interested: &Vec<u64>, text: &String) -> (effects: Vec<Effect>)
    ensures
        dm_effects_for(effects@, interested@, text@),
{
    let mut effects: Vec<Effect> = Vec::new();
    let n = interested.len();
    let mut i: usize = 0;
    while i < n
        invariant
            n == interested@.len(),
            0 <= i <= n,
            effects@.len() == i,
            forall|k: int| 0 <= k < i ==> is_dm(#[trigger] effects@[k], interested@[k], text@),
        decreases n - i,
    {
        effects.push(Effect::SendDm { user_id: interested[i], text: text.clone() });
        i = i + 1;
    }
    effects
}

/// The delivery half of the reminder step: one direct message per
/// interested user, built from the stored row.
///
/// The caller performs these sends and only then calls
/// `mark_reminded` — set-after-send, so a crash between the two can
/// cause a duplicate reminder on the next sweep, never a lost one.
/// The deliveries are built whatever the flag currently holds — the
/// check belongs immediately before the call (see `remind_if_due`) —
/// so two triggers that both observed a pending flag both deliver
/// (at-least-once delivery).  A row that is already gone is not an
/// error: nothing is sent.
pub fn apply_remind(store: &EventStore, event_id: i32, interested: &Vec<u64>) -> (effects: Vec<
    Effect,
>)
    ensures
        match spec_find_by_id(store@, event_id) {
            Some(e) => dm_effects_for(effects@, interested@, spec_reminder_text(e.event_name@)),
            None => effects@.len() == 0,
        },
{
    match store.get_event_by_id(event_id) {
        Some(e) => {
            let text = reminder_text(&e.event_name);
            dm_all(interested, &text)
        },
        None => Vec::new(),
    }
}

/// The persistence half of the reminder step: record in the durable
/// flag that the reminder ran, after its deliveries were performed.
/// Returns how many rows changed: one if the id is present, else zero.
pub fn mark_reminded(store: &mut EventStore, event_id: i32) -> (n: usize)
    requires
        old(store).wf(),
    ensures
        final(store).wf(),
        final(store).ids_used() == old(store).ids_used(),
        final(store)@ == spec_set_reminder(old(store)@, event_id, 1),
        n == 1 <==> contains_id(old(store)@, event_id),
        n <= 1,
{
    store.set_reminder(event_id, 1)
}

/// Re-read the row and check the guard immediately before firing the
/// reminder: the check-then-act window is as small as the storage
/// allows.  The deliveries come back exactly when the re-read row is
/// still pending, inside the window, and not already due for
/// retirement (retirement wins); the caller performs them and then
/// calls `mark_reminded`.
pub fn remind_if_due(store: &EventStore, event_id: i32, now: i64, interested: &Vec<u64>) -> (r:
    Option<Vec<Effect>>)
    ensures
        match spec_find_by_id(store@, event_id) {
            Some(e) => if spec_should_remind(e.event_time as int, e.reminder_sent as int, now as int)
                && !spec_retire_due(e.event_time as int, now as int) {
                r matches Some(effects) && dm_effects_for(
                    effects@,
                    interested@,
                    spec_reminder_text(e.event_name@),
                )
            } else {
                r is None
            },
            None => r is None,
        },
{
    match store.get_event_by_id(event_id) {
        Some(e) => {
            let g = eval_guard(&e, now);
            if g.should_remind && !g.should_retire {
                Some(apply_remind(store, event_id, interested))
            } else {
                None
            }
        },
        None => None,
    }
}

/// The retirement step of the state machine: delete the announcement
/// (best effort) and remove the row.
///
/// Retirement is idempotent: a row that is already gone leaves the
/// store untouched and produces no effects, and an announcement id
/// that does not parse is simply skipped.  No input is an error.
pub fn apply_retire(store: &mut EventStore, event_id: i32) -> (effects: Vec<Effect>)
    requires
        old(store).wf(),
    ensures
        final(store).wf(),
        final(store).ids_used() == old(store).ids_used(),
        final(store)@ == spec_remove_id(old(store)@, event_id),
        !contains_id(final(store)@, event_id),
        match spec_find_by_id(old(store)@, event_id) {
            Some(e) => match spec_parse_msg_id(e.message_id@) {
                Some(mid) => effects@.len() == 1 && is_delete(effects@[0], mid),
                None => effects@.len() == 0,
            },
            None => effects@.len() == 0 && final(store)@ == old(store)@,
        },
{
    proof {
        lemma_remove_id_absent(old(store)@, event_id);
    }
    match store.get_event_by_id(event_id) {
        Some(e) => {
            let mut effects: Vec<Effect> = Vec::new();
            match parse_msg_id(e.message_id.as_str()) {
                Some(mid) => {
                    effects.push(Effect::DeleteAnnouncement { message_id: mid });
                },
                None => {},
            }
            store.remove_event(event_id);
            effects
        },
        None => {
            proof {
                lemma_find_none_means_absent(store@, event_id);
                lemma_remove_id_noop(store@, event_id);
            }
            Vec::new()
        },
    }
}

/// A find that comes back empty means no row carries the id.
proof fn lemma_find_none_means_absent(s: Seq<Event>, id: i32)
    requires
        spec_find_by_id(s, id) is None,
    ensures
        forall|k: int| 0 <= k < s.len() ==> (#[trigger] s[k]).id != id,
    decreases s.len(),
{
    if s.len() > 0 {
        lemma_find_none_means_absent(s.drop_first(), id);
        assert forall|k: int| 0 <= k < s.len() implies (#[trigger] s[k]).id != id by {
            if k > 0 {
                assert(s.drop_first()[k - 1] == s[k]);
            }
        }
    }
}

/// Register the precise reminder task for a stored event, exactly when
/// its reminder is still pending: one task, ten minutes before the
/// start.
pub fn schedule_event(sched: &mut PrecisionScheduler, event: &Event)
    requires
        old(sched).wf(),
        old(sched)@.len() < usize::MAX,
        valid_instant(event.event_time),
    ensures
        final(sched).wf(),
        event.reminder_sent < 1 ==> exists|i: int|
            0 <= i <= old(sched)@.len() && final(sched)@ == #[trigger] old(sched)@.insert(
                i,
                (ScheduledTask {
                    key: SchedulerKey { fire_at: (event.event_time - REMINDER_LEAD_SECS) as i64 },
                    action: TaskAction::Remind(event.id),
                }),
            ),
        event.reminder_sent >= 1 ==> *final(sched) == *old(sched),
{
    if event.reminder_sent < 1 {
        let fire_at = event.event_time - REMINDER_LEAD_SECS;
        sched.schedule(fire_at, TaskAction::Remind(event.id));
    }
}

/// What the fired reminder task decides, mirroring the precise path:
/// re-read the row, skip entirely when it is gone or its announcement
/// id does not parse, hand back the deliveries when the flag is still
/// pending, and queue the retirement task an hour after the start.
///
/// The deliveries come back unperformed: the caller sends them and
/// then calls `mark_reminded`, so the flag is written after the sends
/// (set-after-send) — a crash between the two duplicates a reminder
/// on the next sweep, never loses one.
pub fn send_reminders(
    store: &EventStore,
    sched: &mut PrecisionScheduler,
    event_id: i32,
    interested: &Vec<u64>,
) -> (r: Option<Vec<Effect>>)
    requires
        old(sched).wf(),
        old(sched)@.len() < usize::MAX,
    ensures
        final(sched).wf(),
        match spec_find_by_id(store@, event_id) {
            Some(e) => if spec_parse_msg_id(e.message_id@) is Some {
                (if e.reminder_sent == 0 {
                    r matches Some(effects) && dm_effects_for(
                        effects@,
                        interested@,
                        spec_reminder_text(e.event_name@),
                    )
                } else {
                    r is None
                }) && (if valid_instant(e.event_time) {
                    exists|i: int|
                        0 <= i <= old(sched)@.len() && final(sched)@ == #[trigger] old(sched)@.insert(
                            i,
                            (ScheduledTask {
                                key: SchedulerKey {
                                    fire_at: (e.event_time + RETIREMENT_WINDOW_SECS) as i64,
                                },
                                action: TaskAction::Retire(e.id),
                            }),
                        )
                } else {
                    *final(sched) == *old(sched)
                })
            } else {
                r is None && *final(sched) == *old(sched)
            },
            None => r is None && *final(sched) == *old(sched),
        },
{
    match store.get_event_by_id(event_id) {
        Some(e) => {
            match parse_msg_id(e.message_id.as_str()) {
                Some(_mid) => {
                    let r = if e.reminder_sent == 0 {
                        let text = reminder_text(&e.event_name);
                        Some(dm_all(interested, &text))
                    } else {
                        None
                    };
                    if instant_is_valid(e.event_time) {
                        let fire_at = e.event_time + RETIREMENT_WINDOW_SECS;
                        sched.schedule(fire_at, TaskAction::Retire(e.id));
                    }
                    r
                },
                None => None,
            }
        },
        None => None,
    }
}

/// Turn a confirmed template into a stored, scheduled event: stamp the
/// posted announcement id onto the template, persist it under a fresh
/// id, and register the reminder task when the flag is pending.
pub fn register_confirmed(
    store: &mut EventStore,
    sched: &mut PrecisionScheduler,
    template: &NewEvent,
    posted_message_id: &String,
) -> (ev: Event)
    requires
        old(store).wf(),
        old(store).can_insert(),
        old(sched).wf(),
        old(sched)@.len() < usize::MAX,
        valid_instant(template.event_time),
    ensures
        final(store).wf(),
        final(sched).wf(),
        final(store).ids_used() == old(store).ids_used() + 1,
        ev.id == old(store).ids_used(),
        ev.event_name == template.event_name,
        ev.event_desc == template.event_desc,
        ev.event_loc == template.event_loc,
        ev.organizer == template.organizer,
        ev.event_time == template.event_time,
        ev.message_id == posted_message_id,
        ev.thumbnail_link == template.thumbnail_link,
        ev.reminder_sent == template.reminder_sent,
        final(store)@ == old(store)@.push(ev),
        template.reminder_sent < 1 ==> exists|i: int|
            0 <= i <= old(sched)@.len() && final(sched)@ == #[trigger] old(sched)@.insert(
                i,
                (ScheduledTask {
                    key: SchedulerKey {
                        fire_at: (template.event_time - REMINDER_LEAD_SECS) as i64,
                    },
                    action: TaskAction::Remind(ev.id),
                }),
            ),
        template.reminder_sent >= 1 ==> *final(sched) == *old(sched),
{
    let mut stamped = template.clone();
    stamped.message_id = posted_message_id.clone();
    let event = store.insert_event(&stamped);
    schedule_event(sched, &event);
    event
}

/// Law: the reminder transition is idempotent on the durable flag, and
/// once any trigger has completed it, the stored row reads "sent".
/// Two racing triggers that both observed a pending flag both build
/// their deliveries (`apply_remind` builds them whatever the flag
/// holds); after both have delivered and marked, the flag is 1 all
/// the same.
pub proof fn lemma_remind_at_least_once(s: Seq<Event>, id: i32)
    ensures
        spec_set_reminder(spec_set_reminder(s, id, 1), id, 1) == spec_set_reminder(s, id, 1),
        contains_id(s, id) ==> (spec_find_by_id(spec_set_reminder(s, id, 1), id) matches Some(e)
            && e.reminder_sent == 1),
{
    let once = spec_set_reminder(s, id, 1);
    assert(spec_set_reminder(once, id, 1) =~= once);
    if contains_id(s, id) {
        lemma_find_after_set(s, id, 1);
        lemma_contains_finds(s, id);
    }
}

/// Finding after the flag update yields the found row with its flag
/// rewritten.
proof fn lemma_find_after_set(s: Seq<Event>, id: i32, state: i32)
    ensures
        spec_find_by_id(spec_set_reminder(s, id, state), id) == match spec_find_by_id(s, id) {
            Some(e) => Some(with_reminder(e, state)),
            None => None,
        },
    decreases s.len(),
{
    let t = spec_set_reminder(s, id, state);
    if s.len() == 0 {
        assert(t =~= s);
    } else {
        assert(t.len() == s.len());
        assert(t[0] == if s[0].id == id {
            with_reminder(s[0], state)
        } else {
            s[0]
        });
        if s[0].id == id {
        } else {
            assert(t.drop_first() =~= spec_set_reminder(s.drop_first(), id, state));
            lemma_find_after_set(s.drop_first(), id, state);
        }
    }
}

/// A sequence that contains an id finds some row under it.
proof fn lemma_contains_finds(s: Seq<Event>, id: i32)
    requires
        contains_id(s, id),
    ensures
        spec_find_by_id(s, id) is Some,
    decreases s.len(),
{
    if s.len() > 0 && s[0].id != id {
        let w = choose|k: int| 0 <= k < s.len() && (#[trigger] s[k]).id == id;
        assert(s.drop_first()[w - 1] == s[w]);
        assert(contains_id(s.drop_first(), id));
        lemma_contains_finds(s.drop_first(), id);
    }
}

/// Law: the transitions follow the state machine.  Reminding a stored
/// row moves it to `Reminded`; retiring any id moves it to `Retired`;
/// and `Retired` is terminal — the reminder transition cannot revive
/// an id that is gone.
pub proof fn lemma_state_machine(s: Seq<Event>, id: i32)
    ensures
        contains_id(s, id) ==> spec_lifecycle_state(spec_set_reminder(s, id, 1), id)
            == LifecycleState::Reminded,
        spec_lifecycle_state(spec_remove_id(s, id), id) == LifecycleState::Retired,
        !contains_id(s, id) ==> spec_lifecycle_state(spec_set_reminder(s, id, 1), id)
            == LifecycleState::Retired,
{
    lemma_find_after_set(s, id, 1);
    if contains_id(s, id) {
        lemma_contains_finds(s, id);
    } else {
        lemma_absent_not_found(s, id);
    }
    lemma_remove_id_absent(s, id);
    let removed = spec_remove_id(s, id);
    lemma_absent_not_found(removed, id);
}

/// A sequence without an id finds no row under it.
proof fn lemma_absent_not_found(s: Seq<Event>, id: i32)
    requires
        !contains_id(s, id),
    ensures
        spec_find_by_id(s, id) is None,
    decreases s.len(),
{
    if s.len() > 0 {
        assert(s[0].id != id);
        assert forall|k: int| 0 <= k < s.drop_first().len() implies (
        #[trigger] s.drop_first()[k]).id != id by {
            assert(s.drop_first()[k] == s[k + 1]);
        }
        lemma_absent_not_found(s.drop_first(), id);
    }
}

/// Law: retirement is idempotent.  Retiring an id that a racing
/// trigger already retired changes nothing and raises no error, and
/// the row is absent after either retirement.
pub proof fn lemma_apply_retire_idempotent(s: Seq<Event>, id: i32)
    ensures
        spec_remove_id(spec_remove_id(s, id), id) == spec_remove_id(s, id),
        !contains_id(spec_remove_id(s, id), id),
{
    lemma_remove_id_idempotent(s, id);
    lemma_remove_id_absent(s, id);
}

/// Law: retirement is independent of the reminder flag.  However the
/// flag of the id was rewritten — delivered or still pending —
/// retiring leaves exactly the same rows.
pub proof fn lemma_retire_regardless_of_flag(s: Seq<Event>, id: i32, state: i32)
    ensures
        spec_remove_id(spec_set_reminder(s, id, state), id) == spec_remove_id(s, id),
    decreases s.len(),
{
    let t = spec_set_reminder(s, id, state);
    if s.len() == 0 {
        assert(t =~= s);
    } else {
        let d = s.drop_last();
        assert(t.drop_last() =~= spec_set_reminder(d, id, state));
        assert(t.last() == if s.last().id == id {
            with_reminder(s.last(), state)
        } else {
            s.last()
        });
        lemma_retire_regardless_of_flag(d, id, state);
    }
}

} // verus!
