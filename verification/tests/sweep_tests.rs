use hypebot::event::NewEvent;
use hypebot::scheduler::{PrecisionScheduler, TaskAction};
use hypebot::store::EventStore;
use hypebot::sweep::{startup_rescan, sweep_plan};

fn template(name: &str, time: i64, sent: i32) -> NewEvent {
    NewEvent {
        event_name: name.to_string(),
        event_desc: "d".to_string(),
        event_loc: "l".to_string(),
        organizer: "o".to_string(),
        event_time: time,
        message_id: "5".to_string(),
        thumbnail_link: "t".to_string(),
        reminder_sent: sent,
    }
}

#[test]
fn sweep_decides_per_row() {
    let now: i64 = 1_000_000;
    let mut store = EventStore::new();
    let overdue = store.insert_event(&template("overdue", now - 4000, 0));
    let in_window = store.insert_event(&template("in_window", now + 300, 0));
    let already_sent = store.insert_event(&template("already_sent", now + 300, 1));
    let far_future = store.insert_event(&template("far_future", now + 7200, 0));

    let rows = store.get_all_events();
    let plan = sweep_plan(&rows, now);
    // Rows come time-ascending; only the due ones appear in the plan.
    assert_eq!(plan, vec![TaskAction::Retire(overdue.id), TaskAction::Remind(in_window.id)]);
    let _ = (already_sent, far_future);
}

#[test]
fn sweep_on_empty_store_is_empty() {
    let store = EventStore::new();
    assert!(sweep_plan(&store.get_all_events(), 12345).is_empty());
}

#[test]
fn startup_rescan_rebuilds_the_queue() {
    let now: i64 = 1_000_000;
    let mut store = EventStore::new();
    // More than an hour old: retired at once.
    let dead = store.insert_event(&template("dead", now - 3700, 0));
    // Started but within the hour: its retirement is queued.
    let started = store.insert_event(&template("started", now - 100, 1));
    // Future and still pending: its reminder is queued.
    let pending = store.insert_event(&template("pending", now + 5000, 0));
    // Future but already reminded: nothing to queue.
    let reminded = store.insert_event(&template("reminded", now + 5000, 1));

    let mut sched = PrecisionScheduler::new();
    let retire_now = startup_rescan(&store.get_all_events(), &mut sched, now);

    assert_eq!(retire_now, vec![dead.id]);
    assert_eq!(sched.len(), 2);
    let first = sched.pop_due(i64::MAX).unwrap();
    assert_eq!(first.action, TaskAction::Retire(started.id));
    assert_eq!(first.key.fire_at, now - 100 + 3600);
    let second = sched.pop_due(i64::MAX).unwrap();
    assert_eq!(second.action, TaskAction::Remind(pending.id));
    assert_eq!(second.key.fire_at, now + 5000 - 600);
    let _ = reminded;
}

#[test]
fn startup_rescan_boundaries() {
    let now: i64 = 1_000_000;
    let mut store = EventStore::new();
    // Exactly an hour old: not yet "more than", so the retirement is queued.
    let edge = store.insert_event(&template("edge", now - 3600, 0));
    // Exactly starting now: not started yet under the strict check, so
    // a pending reminder is queued.
    let starting = store.insert_event(&template("starting", now, 0));

    let mut sched = PrecisionScheduler::new();
    let retire_now = startup_rescan(&store.get_all_events(), &mut sched, now);
    assert!(retire_now.is_empty());
    assert_eq!(sched.len(), 2);
    // The reminder fires at now-600, before the retirement at now.
    let first = sched.pop_due(i64::MAX).unwrap();
    assert_eq!(first.action, TaskAction::Remind(starting.id));
    assert_eq!(first.key.fire_at, now - 600);
    let second = sched.pop_due(i64::MAX).unwrap();
    assert_eq!(second.action, TaskAction::Retire(edge.id));
    assert_eq!(second.key.fire_at, now);
}
