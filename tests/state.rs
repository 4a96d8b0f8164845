use bevy_adventure::{Message, NewMessage, WorldState};

#[test]
fn world_state_stores_strings() {
    let mut s = WorldState::new();
    assert_eq!(s.get("door"), None);
    s.insert("door", "open");
    assert_eq!(s.get("door").as_deref(), Some("open"));
    s.set("door", "closed");
    assert_eq!(s.get("door").as_deref(), Some("closed"));
}

#[test]
fn world_state_reads_bools() {
    let mut s = WorldState::new();
    assert!(!s.get_bool("lamp"));
    s.insert("lamp", "true");
    assert!(s.get_bool("lamp"));
    s.insert("lamp", "false");
    assert!(!s.get_bool("lamp"));
    s.insert("lamp", "yes");
    assert!(!s.get_bool("lamp"));
    s.insert("lamp", "True");
    assert!(!s.get_bool("lamp"));
    s.insert_bool("fan", true);
    assert_eq!(s.get("fan").as_deref(), Some("true"));
    assert!(s.get_bool("fan"));
    s.insert_bool("fan", false);
    assert_eq!(s.get("fan").as_deref(), Some("false"));
}

#[test]
fn message_new_is_text() {
    match Message::new("It's a cup.") {
        Message::Text(t) => assert_eq!(t, "It's a cup."),
        _ => panic!("expected text"),
    }
    let event = NewMessage(Message::InvalidItemUsed);
    assert!(matches!(event.0.clone(), Message::InvalidItemUsed));
}
