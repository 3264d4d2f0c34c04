use hypebot::commands::{build_draft, cancel_notices, create_draft, prepare_cancel};
use hypebot::lifecycle::apply_retire;
use hypebot::draft::DraftSlot;
use hypebot::errors::HypeError;
use hypebot::event::NewEvent;
use hypebot::lifecycle::Effect;
use hypebot::settings::HypeBotConfig;
use hypebot::store::EventStore;

fn config(tz: &str) -> HypeBotConfig {
    HypeBotConfig {
        db_url: "db".to_string(),
        default_thumbnail_link: "https://example.com/default.png".to_string(),
        discord_key: "SECRET-REDACTED".to_string(),
        prefix: "~".to_string(),
        event_channel: 99,
        event_roles: vec![10, 20],
        event_timezone: tz.to_string(),
        log_path: "logs".to_string(),
    }
}

fn build(
    cfg: &HypeBotConfig,
    date_string: &str,
    thumbnail: Option<&String>,
    now: i64,
) -> Result<hypebot::event::DraftEvent, HypeError> {
    build_draft(
        cfg,
        "Launch".to_string(),
        &date_string.to_string(),
        "desc".to_string(),
        "loc".to_string(),
        thumbnail,
        "org".to_string(),
        now,
        7,
    )
}

#[test]
fn build_draft_resolves_utc_time() {
    let cfg = config("UTC");
    let d = build(&cfg, "12:00am 2030-01-01", None, 0).expect("valid draft");
    assert_eq!(d.event.event_time, 1_893_456_000);
    assert_eq!(d.event.message_id, "");
    assert_eq!(d.event.reminder_sent, 0);
    assert_eq!(d.creator_id, 7);
}

#[test]
fn build_draft_resolves_zoned_time() {
    // 7 pm in New York on 2030-01-01 is midnight UTC the next day.
    let cfg = config("America/New_York");
    let d = build(&cfg, "07:00pm 2030-01-01", None, 0).expect("valid draft");
    assert_eq!(d.event.event_time, 1_893_542_400);
}

#[test]
fn build_draft_rejects_bad_date_text() {
    let cfg = config("UTC");
    assert!(matches!(build(&cfg, "2030-01-01 12:00", None, 0), Err(HypeError::Validation)));
    assert!(matches!(build(&cfg, "25:61pm 2030-01-01", None, 0), Err(HypeError::Validation)));
}

#[test]
fn build_draft_rejects_unknown_zone() {
    let cfg = config("Nowhere/Special");
    assert!(matches!(build(&cfg, "12:00am 2030-01-01", None, 0), Err(HypeError::Validation)));
}

#[test]
fn build_draft_rejects_passed_time() {
    let cfg = config("UTC");
    let r = build(&cfg, "12:00am 2030-01-01", None, 1_893_456_001);
    assert!(matches!(r, Err(HypeError::Validation)));
    // The exact start instant is still accepted.
    assert!(build(&cfg, "12:00am 2030-01-01", None, 1_893_456_000).is_ok());
}

#[test]
fn build_draft_normalizes_thumbnail_or_falls_back() {
    let cfg = config("UTC");
    let good = "https://example.com".to_string();
    let d = build(&cfg, "12:00am 2030-01-01", Some(&good), 0).expect("draft");
    // The URL library normalizes the link, so it is not the raw text.
    assert_eq!(d.event.thumbnail_link, "https://example.com/");

    let bad = "not a link".to_string();
    let d2 = build(&cfg, "12:00am 2030-01-01", Some(&bad), 0).expect("draft");
    assert_eq!(d2.event.thumbnail_link, "https://example.com/default.png");

    let d3 = build(&cfg, "12:00am 2030-01-01", None, 0).expect("draft");
    assert_eq!(d3.event.thumbnail_link, "https://example.com/default.png");
}

#[test]
fn create_draft_fills_the_slot() {
    let cfg = config("UTC");
    let mut slot = DraftSlot::new();
    create_draft(
        &mut slot,
        &cfg,
        "Launch".to_string(),
        &"12:00am 2030-01-01".to_string(),
        "desc".to_string(),
        "loc".to_string(),
        None,
        "org".to_string(),
        0,
        7,
    )
    .expect("slot filled");
    let d = slot.get().expect("draft present");
    assert_eq!(d.event.event_name, "Launch");

    // A rejected create leaves the slot as it was.
    let r = create_draft(
        &mut slot,
        &cfg,
        "Other".to_string(),
        &"garbage".to_string(),
        "desc".to_string(),
        "loc".to_string(),
        None,
        "org".to_string(),
        0,
        8,
    );
    assert!(matches!(r, Err(HypeError::Validation)));
    assert_eq!(slot.get().expect("unchanged").event.event_name, "Launch");
}

fn stored(store: &mut EventStore, name: &str, msg_id: &str) -> i32 {
    let ev = store.insert_event(&NewEvent {
        event_name: name.to_string(),
        event_desc: "d".to_string(),
        event_loc: "l".to_string(),
        organizer: "o".to_string(),
        event_time: 1_000,
        message_id: msg_id.to_string(),
        thumbnail_link: "t".to_string(),
        reminder_sent: 0,
    });
    ev.id
}

#[test]
fn cancel_unknown_event_is_not_found() {
    let store = EventStore::new();
    assert_eq!(prepare_cancel(&store, &"ghost".to_string()), Err(HypeError::NotFound));
}

#[test]
fn cancel_rejects_bad_announcement_id() {
    let mut store = EventStore::new();
    stored(&mut store, "party", "abc");
    assert_eq!(prepare_cancel(&store, &"party".to_string()), Err(HypeError::Validation));
}

#[test]
fn cancel_notifies_then_deletes() {
    let mut store = EventStore::new();
    let id = stored(&mut store, "party", "888");
    let (found_id, mid) = prepare_cancel(&store, &"party".to_string()).expect("found");
    assert_eq!(found_id, id);
    assert_eq!(mid, 888);

    // The reactors are notified before anything is deleted: the
    // notices are built and delivered while the row still stands.
    let notices = cancel_notices(&"party".to_string(), &vec![4, 5]);
    assert_eq!(notices.len(), 2);
    match &notices[0] {
        Effect::SendDm { user_id, text } => {
            assert_eq!(*user_id, 4);
            assert_eq!(text, "**party** has been canceled!");
        },
        _ => panic!("reactors are notified first"),
    }
    assert!(store.get_event_by_id(id).is_some());

    // Only then is the event retired: row removed, announcement deleted.
    let effects = apply_retire(&mut store, id);
    assert_eq!(effects.len(), 1);
    match &effects[0] {
        Effect::DeleteAnnouncement { message_id } => assert_eq!(*message_id, 888),
        _ => panic!("the announcement deletion comes after the notices"),
    }
    assert!(store.get_event_by_id(id).is_none());
}
