use hypebot::scheduler::{PrecisionScheduler, TaskAction};

#[test]
fn pop_waits_for_the_fire_instant() {
    let mut sched = PrecisionScheduler::new();
    sched.schedule(1_000, TaskAction::Remind(1));
    assert!(sched.pop_due(999).is_none());
    let t = sched.pop_due(1_000).expect("due at its instant");
    assert_eq!(t.key.fire_at, 1_000);
    assert_eq!(t.action, TaskAction::Remind(1));
    // Handed out exactly once.
    assert!(sched.pop_due(2_000).is_none());
}

#[test]
fn tasks_come_out_in_fire_order() {
    let mut sched = PrecisionScheduler::new();
    sched.schedule(300, TaskAction::Remind(3));
    sched.schedule(100, TaskAction::Remind(1));
    sched.schedule(200, TaskAction::Retire(2));
    assert_eq!(sched.peek_fire_at(), Some(100));
    assert_eq!(sched.pop_due(1_000).unwrap().action, TaskAction::Remind(1));
    assert_eq!(sched.pop_due(1_000).unwrap().action, TaskAction::Retire(2));
    assert_eq!(sched.pop_due(1_000).unwrap().action, TaskAction::Remind(3));
    assert!(sched.pop_due(1_000).is_none());
}

#[test]
fn equal_instants_keep_queue_order() {
    let mut sched = PrecisionScheduler::new();
    sched.schedule(100, TaskAction::Remind(1));
    sched.schedule(100, TaskAction::Remind(2));
    assert_eq!(sched.pop_due(100).unwrap().action, TaskAction::Remind(1));
    assert_eq!(sched.pop_due(100).unwrap().action, TaskAction::Remind(2));
}

#[test]
fn past_instants_are_queued_not_dropped() {
    // A task whose instant already passed still runs on the next poll.
    let mut sched = PrecisionScheduler::new();
    sched.schedule(-50, TaskAction::Retire(9));
    assert_eq!(sched.len(), 1);
    let t = sched.pop_due(0).expect("late task still fires");
    assert_eq!(t.action, TaskAction::Retire(9));
}
