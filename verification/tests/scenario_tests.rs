use hypebot::commands::create_draft;
use hypebot::draft::DraftSlot;
use hypebot::lifecycle::{apply_retire, mark_reminded, register_confirmed, send_reminders, Effect};
use hypebot::scheduler::{PrecisionScheduler, TaskAction};
use hypebot::settings::HypeBotConfig;
use hypebot::store::EventStore;

fn config() -> HypeBotConfig {
    HypeBotConfig {
        db_url: "db".to_string(),
        default_thumbnail_link: "https://example.com/default.png".to_string(),
        discord_key: "SECRET-REDACTED".to_string(),
        prefix: "~".to_string(),
        event_channel: 99,
        event_roles: vec![10],
        event_timezone: "UTC".to_string(),
        log_path: "logs".to_string(),
    }
}

#[test]
fn full_lifecycle() {
    // Create a draft whose event starts thirty minutes after T; the
    // reminder fires at T+20min (ten-minute lead), the retirement at
    // T+90min (sixty minutes after the start).
    let start: i64 = 1_893_456_000; // the event's start, in UTC seconds
    let t = start - 30 * 60; // "now" at creation time
    let creator: u64 = 7;

    let mut slot = DraftSlot::new();
    create_draft(
        &mut slot,
        &config(),
        "Premiere".to_string(),
        &"12:00am 2030-01-01".to_string(),
        "First showing".to_string(),
        "Cinema".to_string(),
        None,
        "Club".to_string(),
        t,
        creator,
    )
    .expect("draft created");

    // Confirm: only the creator may, and the template is still unposted.
    let template = slot.confirm(creator).expect("creator confirms");
    assert_eq!(template.message_id, "");

    // The caller posts the announcement and hands back its message id.
    let mut store = EventStore::new();
    let mut sched = PrecisionScheduler::new();
    let ev = register_confirmed(&mut store, &mut sched, &template, &"424242".to_string());
    assert_eq!(ev.event_time, start);

    // Nothing fires before the ten-minute lead.
    assert!(sched.pop_due(start - 601).is_none());

    // At T+20min the reminder task fires.
    let task = sched.pop_due(start - 600).expect("reminder due");
    assert_eq!(task.action, TaskAction::Remind(ev.id));

    let interested: Vec<u64> = vec![100, 200, 300];
    let effects = send_reminders(&store, &mut sched, ev.id, &interested).expect("still pending");
    assert_eq!(effects.len(), 3);
    for (effect, user) in effects.iter().zip(interested.iter()) {
        match effect {
            Effect::SendDm { user_id, text } => {
                assert_eq!(user_id, user);
                assert_eq!(text, "Hello! **Premiere** is starting soon!");
            },
            _ => panic!("expected direct messages"),
        }
    }
    // The host performs the sends and then persists the flag.
    mark_reminded(&mut store, ev.id);
    assert_eq!(store.get_event_by_id(ev.id).unwrap().reminder_sent, 1);

    // At T+90min the retirement task fires.
    assert!(sched.pop_due(start + 3599).is_none());
    let task = sched.pop_due(start + 3600).expect("retirement due");
    assert_eq!(task.action, TaskAction::Retire(ev.id));

    let effects = apply_retire(&mut store, ev.id);
    assert_eq!(effects.len(), 1);
    match &effects[0] {
        Effect::DeleteAnnouncement { message_id } => assert_eq!(*message_id, 424_242),
        _ => panic!("expected the announcement deletion"),
    }
    assert!(store.get_event_by_id(ev.id).is_none());
    assert_eq!(store.len(), 0);
}
