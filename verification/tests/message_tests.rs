use hypebot::errors::HypeError;
use hypebot::event::Event;
use hypebot::messages::{cancel_text, reaction_response, reminder_text, started_text};
use hypebot::msgid::parse_msg_id;
use hypebot::settings::HypeBotConfig;

fn event_at(time: i64) -> Event {
    Event {
        id: 1,
        event_name: "Quiz".to_string(),
        event_desc: "d".to_string(),
        event_loc: "l".to_string(),
        organizer: "o".to_string(),
        event_time: time,
        message_id: "1".to_string(),
        thumbnail_link: "t".to_string(),
        reminder_sent: 0,
    }
}

#[test]
fn notification_texts() {
    assert_eq!(reminder_text(&"Quiz".to_string()), "Hello! **Quiz** is starting soon!");
    assert_eq!(cancel_text(&"Quiz".to_string()), "**Quiz** has been canceled!");
    assert_eq!(started_text(&"Quiz".to_string()), "**Quiz** has already started!");
}

#[test]
fn reaction_reply_formats_template_for_future_event() {
    let e = event_at(1_000);
    let msg = reaction_response("You are signed up for **{event}**", &e, 999).expect("formats");
    assert_eq!(msg, "You are signed up for **Quiz**");
}

#[test]
fn reaction_reply_notes_started_event() {
    let e = event_at(1_000);
    let msg = reaction_response("You are signed up for **{event}**", &e, 1_000).expect("static");
    assert_eq!(msg, "**Quiz** has already started!");
}

#[test]
fn reaction_reply_rejects_broken_template() {
    let e = event_at(1_000);
    assert!(reaction_response("dangling {", &e, 0).is_none());
}

#[test]
fn message_id_parsing() {
    assert_eq!(parse_msg_id("0"), Some(0));
    assert_eq!(parse_msg_id("123456789012345678"), Some(123_456_789_012_345_678));
    assert_eq!(parse_msg_id("18446744073709551615"), Some(u64::MAX));
    // Overflow by one.
    assert_eq!(parse_msg_id("18446744073709551616"), None);
    assert_eq!(parse_msg_id(""), None);
    assert_eq!(parse_msg_id("12a4"), None);
    assert_eq!(parse_msg_id("-5"), None);
    assert_eq!(parse_msg_id(" 5"), None);
}

#[test]
fn role_and_reaction_gates() {
    let cfg = HypeBotConfig {
        db_url: "db".to_string(),
        default_thumbnail_link: "t".to_string(),
        discord_key: "SECRET-REDACTED".to_string(),
        prefix: "~".to_string(),
        event_channel: 99,
        event_roles: vec![10, 20],
        event_timezone: "UTC".to_string(),
        log_path: "logs".to_string(),
    };
    assert!(cfg.is_event_role(10));
    assert!(cfg.is_event_role(20));
    assert!(!cfg.is_event_role(30));

    let interested = "\u{2705}".to_string();
    let other = "\u{274C}".to_string();
    assert!(cfg.reaction_is_relevant(99, &interested));
    assert!(!cfg.reaction_is_relevant(98, &interested));
    assert!(!cfg.reaction_is_relevant(99, &other));
}

#[test]
fn error_descriptions() {
    assert_eq!(HypeError::Authorization.describe(), "you do not have a pending event");
    assert_eq!(HypeError::NotFound.describe(), "not found");
    assert_eq!(HypeError::Validation.describe(), "invalid input");
}

#[test]
fn emoji_constants() {
    assert_eq!(hypebot::settings::interested_emoji(), "\u{2705}");
    assert_eq!(hypebot::settings::uninterested_emoji(), "\u{274C}");
}
