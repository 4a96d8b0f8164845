use bevy_adventure::{
    Action, Description, Interactive, Item, Message, MoveTo, NoState, Portal, Prop, Simple, Trigger,
    WorldState,
};

#[test]
fn simple_repeats_its_actions() {
    let mut s: Simple<u8> = Simple::from(Action::Move("Camera_Cup".to_string()));
    s.push(Action::Transition(2));
    s.extend(vec![Action::AddItem(Item::new("coin"))]);
    let mut s = s.animation("wave").audio("ding").jump("Camera_Main");
    let mut state = WorldState::new();
    let first = s.interact(&mut state);
    let second = s.interact(&mut state);
    assert_eq!(first.len(), 6);
    assert_eq!(second.len(), 6);
    assert!(matches!(&first[0], Action::Move(n) if n == "Camera_Cup"));
    assert!(matches!(first[1], Action::Transition(2)));
    assert!(matches!(&first[2], Action::AddItem(i) if i.as_str() == "coin"));
    assert!(matches!(&first[3], Action::Animation(n) if n == "wave"));
    assert!(matches!(&first[4], Action::Audio(n) if n == "ding"));
    assert!(matches!(&second[5], Action::Jump(n) if n == "Camera_Main"));
}

#[test]
fn presets_build_simple_interactives() {
    let mut state = WorldState::new();
    let mut d = Description::build("It's a cup.");
    let acts = d.interact(&mut state);
    assert_eq!(acts.len(), 1);
    assert!(matches!(&acts[0], Action::Message(Message::Text(t)) if t == "It's a cup."));
    let mut m = MoveTo::build("Camera_Door");
    assert!(matches!(&m.interact(&mut state)[0], Action::Move(n) if n == "Camera_Door"));
    let mut p = Portal::build(5u8);
    assert!(matches!(p.interact(&mut state)[0], Action::Transition(5)));
    assert!(Prop.interact(&mut state).is_empty());
    let (ignores, mut t) = Trigger::build("Glass");
    assert_eq!(ignores.names, vec!["Glass".to_string()]);
    assert!(t.interact(&mut state).is_empty());
    assert_eq!(NoState::State, NoState::State);
}

#[test]
fn default_use_item_rejects_the_item() {
    let mut state = WorldState::new();
    let key = Item::new("key");
    let mut r = bevy_adventure::ItemRef::new(&key);
    let acts = Prop.use_item(&mut state, &mut r);
    assert_eq!(acts.len(), 1);
    assert!(matches!(&acts[0], Action::Message(Message::InvalidItemUsed)));
    assert!(!r.consumed());
    r.consume();
    assert!(r.consumed());
    r.restore();
    assert!(!r.consumed());
    assert_eq!(r.as_str(), "key");
}

#[test]
fn conversions_into_actions() {
    let a: Action<u8> = Item::new("coin").into();
    assert!(matches!(&a, Action::AddItem(i) if i.as_str() == "coin"));
    let v: Vec<Action<u8>> = Message::InvalidItemCombination.into();
    assert_eq!(v.len(), 1);
    let w: Vec<Action<u8>> = Item::new("coin").into();
    assert_eq!(w.len(), 1);
    let b: Action<u8> = Message::new("hi").into();
    assert_eq!(b.clone().single().len(), 1);
    let x: Vec<Action<u8>> = Action::Transition(1).into();
    assert_eq!(x.len(), 1);
    let inv = bevy_adventure::invalid_item_used::<u8>();
    assert!(matches!(&inv[0], Action::Message(Message::InvalidItemUsed)));
}
