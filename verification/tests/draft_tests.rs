use hypebot::draft::{update_draft_event, DraftSlot};
use hypebot::errors::HypeError;

#[test]
fn confirm_on_empty_slot_is_not_found() {
    let slot = DraftSlot::new();
    assert!(matches!(slot.confirm(42), Err(HypeError::NotFound)));
}

#[test]
fn draft_ownership() {
    // Creator A drafts an event; user B cannot confirm it; A can, and
    // receives a template whose announcement id is still empty.
    let mut slot = DraftSlot::new();
    let a: u64 = 1001;
    let b: u64 = 2002;
    update_draft_event(
        &mut slot,
        "Game night".to_string(),
        "Bring snacks".to_string(),
        "A".to_string(),
        "Lounge".to_string(),
        "https://example.com/t.png".to_string(),
        5_000_000,
        a,
    );

    assert!(matches!(slot.confirm(b), Err(HypeError::Authorization)));

    let template = slot.confirm(a).expect("creator confirm");
    assert_eq!(template.event_name, "Game night");
    assert_eq!(template.message_id, "");
    assert_eq!(template.reminder_sent, 0);
    assert_eq!(template.event_time, 5_000_000);
}

#[test]
fn confirm_leaves_slot_in_place() {
    let mut slot = DraftSlot::new();
    update_draft_event(
        &mut slot,
        "One".to_string(),
        "d".to_string(),
        "o".to_string(),
        "l".to_string(),
        "t".to_string(),
        1,
        5,
    );
    let _ = slot.confirm(5).expect("first confirm");
    // The slot is not cleared by confirm; only the next write replaces it.
    let again = slot.confirm(5).expect("second confirm");
    assert_eq!(again.event_name, "One");
}

#[test]
fn second_create_evicts_first_draft() {
    let mut slot = DraftSlot::new();
    update_draft_event(
        &mut slot,
        "First".to_string(),
        "d".to_string(),
        "o".to_string(),
        "l".to_string(),
        "t".to_string(),
        1,
        5,
    );
    update_draft_event(
        &mut slot,
        "Second".to_string(),
        "d".to_string(),
        "o".to_string(),
        "l".to_string(),
        "t".to_string(),
        2,
        6,
    );
    // The first creator's draft is gone; the slot belongs to the last
    // writer.
    assert!(matches!(slot.confirm(5), Err(HypeError::Authorization)));
    let d = slot.get().expect("slot holds the second draft");
    assert_eq!(d.event.event_name, "Second");
    assert_eq!(d.creator_id, 6);
}
