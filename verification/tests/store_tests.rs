use hypebot::event::NewEvent;
use hypebot::store::EventStore;

fn template(name: &str, time: i64) -> NewEvent {
    NewEvent {
        event_name: name.to_string(),
        event_desc: "desc".to_string(),
        event_loc: "loc".to_string(),
        organizer: "org".to_string(),
        event_time: time,
        message_id: "777".to_string(),
        thumbnail_link: "thumb".to_string(),
        reminder_sent: 0,
    }
}

#[test]
fn insert_assigns_sequential_ids() {
    let mut store = EventStore::new();
    let a = store.insert_event(&template("a", 10));
    let b = store.insert_event(&template("b", 20));
    assert_eq!(a.id, 0);
    assert_eq!(b.id, 1);
    assert_eq!(store.len(), 2);
}

#[test]
fn lookup_by_id_name_and_msg_id() {
    let mut store = EventStore::new();
    let mut t = template("alpha", 10);
    t.message_id = "111".to_string();
    let a = store.insert_event(&t);
    let mut u = template("beta", 20);
    u.message_id = "222".to_string();
    store.insert_event(&u);

    assert_eq!(store.get_event_by_id(a.id).expect("by id").event_name, "alpha");
    assert!(store.get_event_by_id(99).is_none());
    assert_eq!(store.get_event_by_name(&"beta".to_string()).expect("by name").message_id, "222");
    assert!(store.get_event_by_name(&"gamma".to_string()).is_none());
    assert_eq!(store.get_event_by_msg_id(&"111".to_string()).expect("by msg").event_name, "alpha");
    assert!(store.get_event_by_msg_id(&"333".to_string()).is_none());
}

#[test]
fn set_reminder_updates_exactly_one_row() {
    let mut store = EventStore::new();
    let a = store.insert_event(&template("a", 10));
    let b = store.insert_event(&template("b", 20));
    assert_eq!(store.set_reminder(a.id, 1), 1);
    assert_eq!(store.get_event_by_id(a.id).unwrap().reminder_sent, 1);
    assert_eq!(store.get_event_by_id(b.id).unwrap().reminder_sent, 0);
    // An absent id updates nothing.
    assert_eq!(store.set_reminder(555, 1), 0);
}

#[test]
fn remove_is_idempotent() {
    let mut store = EventStore::new();
    let a = store.insert_event(&template("a", 10));
    store.insert_event(&template("b", 20));
    assert_eq!(store.remove_event(a.id), 1);
    assert!(store.get_event_by_id(a.id).is_none());
    assert_eq!(store.len(), 1);
    // Removing again is not an error and changes nothing.
    assert_eq!(store.remove_event(a.id), 0);
    assert_eq!(store.len(), 1);
}

#[test]
fn scan_is_ordered_by_time() {
    let mut store = EventStore::new();
    store.insert_event(&template("late", 300));
    store.insert_event(&template("early", 100));
    store.insert_event(&template("middle", 200));
    let all = store.get_all_events();
    let names: Vec<String> = all.iter().map(|e| e.event_name.clone()).collect();
    assert_eq!(names, vec!["early".to_string(), "middle".to_string(), "late".to_string()]);
}

#[test]
fn row_converts_back_to_template() {
    let mut store = EventStore::new();
    let ev = store.insert_event(&template("alpha", 42));
    let back = ev.to_new_event();
    assert_eq!(back.event_name, "alpha");
    assert_eq!(back.event_time, 42);
    assert_eq!(back.message_id, ev.message_id);
    assert_eq!(back.thumbnail_link, ev.thumbnail_link);
    assert_eq!(back.reminder_sent, 0);
}
