use bevy_adventure::actions::apply_actions;
use bevy_adventure::interaction::{hover_ignores, hoverable, interactive, prepare_interaction, State};
use bevy_adventure::{
    invalid_item_used, Action, BackToSpot, BackToState, CameraSpot, CameraSpots, CommandsExt,
    CurrentSpot, DraggingItem, Effect, EntityId, Hovering, Ignores, Interaction, Interactive, Inventory, Item,
    ItemRef, Message, NamedEntity, SpotEntity, WorldState,
};

fn e(bits: u64) -> EntityId {
    EntityId::from_bits(bits)
}

fn named(bits: u64, name: &str) -> NamedEntity {
    NamedEntity { entity: e(bits), name: name.to_string() }
}

fn spot(bits: u64, name: &str) -> SpotEntity<i32> {
    SpotEntity { entity: e(bits), name: name.to_string(), transform: bits as i32 }
}

fn scene() -> CameraSpots<i32> {
    CameraSpots::new(
        vec![named(1, "Cup"), named(2, "Drawer")],
        vec![spot(10, "Camera_Main"), spot(11, "Camera_Cup"), spot(12, "Camera_Drawer")],
    )
}

fn at(bits: u64, name: &str) -> CurrentSpot<i32> {
    CurrentSpot::new(CameraSpot::new(name, e(bits), bits as i32))
}

fn move_name(effect: &Effect<u8>) -> Option<&str> {
    match effect {
        Effect::MoveTo(n) => Some(n.as_str()),
        _ => None,
    }
}

struct Lock {
    opened: bool,
}

impl Interactive for Lock {
    type State = u8;

    fn use_item(&mut self, state: &mut WorldState, item: &mut ItemRef<'_>) -> Vec<Action<u8>> {
        if item.as_str() == "key" {
            item.consume();
            self.opened = true;
            state.insert("lock", "open");
            vec![Action::Message(Message::new("Unlocked.")), Action::AddItem(Item::new("gem"))]
        } else {
            invalid_item_used()
        }
    }

    fn interact(&mut self, _state: &mut WorldState) -> Vec<Action<u8>> {
        vec![Action::Audio("rattle".to_string()), Action::Transition(7)]
    }
}

#[test]
fn interaction_state_machine() {
    let mut i = Interaction::new();
    assert!(!i.ok());
    assert!(!i.begin());
    assert!(i.ready());
    assert!(!i.ready());
    assert!(i.begin());
    assert!(i.ok());
    let over_cup = Hovering { entity: Some(e(1)) };
    assert_eq!(i.claim(&over_cup, false), None);
    assert!(i.ok());
    assert_eq!(i.claim(&Hovering { entity: None }, true), None);
    assert_eq!(i.claim(&over_cup, true), Some(e(1)));
    assert!(!i.ok());
    assert_eq!(i.claim(&over_cup, true), None);
    i.done();
    assert!(!i.ready());
}

#[test]
fn prepare_leaves_scene_clicks_to_interactives() {
    let mut i = Interaction::new();
    let none: Vec<(EntityId, BackToSpot)> = Vec::new();
    let states: Vec<(EntityId, BackToState<u8>)> = Vec::new();
    let out = prepare_interaction(&mut i, true, true, &DraggingItem::new(), &at(11, "Camera_Cup"), &scene(), &none, &states);
    assert!(out.is_empty());
    assert!(i.ok());
}

#[test]
fn prepare_without_release_only_prepares() {
    let mut i = Interaction::new();
    let none: Vec<(EntityId, BackToSpot)> = Vec::new();
    let states: Vec<(EntityId, BackToState<u8>)> = Vec::new();
    let out = prepare_interaction(&mut i, false, false, &DraggingItem::new(), &at(11, "Camera_Cup"), &scene(), &none, &states);
    assert!(out.is_empty());
    assert!(i.begin());
    let mut again = Interaction::new();
    again.done();
    let out = prepare_interaction(&mut again, true, false, &DraggingItem::new(), &at(11, "Camera_Cup"), &scene(), &none, &states);
    assert!(out.is_empty());
}

#[test]
fn prepare_goes_back_to_main() {
    let mut i = Interaction::new();
    let none: Vec<(EntityId, BackToSpot)> = Vec::new();
    let states: Vec<(EntityId, BackToState<u8>)> = Vec::new();
    let out = prepare_interaction(&mut i, true, false, &DraggingItem::new(), &at(11, "Camera_Cup"), &scene(), &none, &states);
    assert_eq!(out.len(), 2);
    assert_eq!(move_name(&out[0]), Some("Camera_Main"));
    assert!(matches!(out[1], Effect::StopLooking));
    assert!(!i.ready());
    assert!(!i.ok());
}

#[test]
fn prepare_keeps_drag_alive() {
    let mut i = Interaction::new();
    let none: Vec<(EntityId, BackToSpot)> = Vec::new();
    let states: Vec<(EntityId, BackToState<u8>)> = Vec::new();
    let dragging = DraggingItem { src: Some(Item::new("key")), dst: None };
    let out = prepare_interaction(&mut i, true, false, &dragging, &at(11, "Camera_Cup"), &scene(), &none, &states);
    assert!(out.is_empty());
    assert!(i.begin());
}

#[test]
fn prepare_follows_back_to_spot() {
    let spots = scene();
    let here: Vec<(EntityId, BackToSpot)> = vec![(e(11), BackToSpot::new("Camera_Drawer"))];
    let states: Vec<(EntityId, BackToState<u8>)> = vec![(e(11), BackToState::new(3))];
    let mut i = Interaction::new();
    let out = prepare_interaction(&mut i, true, false, &DraggingItem::new(), &at(11, "Camera_Cup"), &spots, &here, &states);
    assert_eq!(out.len(), 2);
    assert_eq!(move_name(&out[0]), Some("Camera_Drawer"));
    // The interactive that the spot belongs to may carry the mark instead.
    let on_cup: Vec<(EntityId, BackToSpot)> = vec![(e(1), BackToSpot::new("Camera_Hall"))];
    let mut j = Interaction::new();
    let out = prepare_interaction(&mut j, true, false, &DraggingItem::new(), &at(11, "Camera_Cup"), &spots, &on_cup, &states);
    assert_eq!(move_name(&out[0]), Some("Camera_Hall"));
}

#[test]
fn prepare_follows_back_to_state() {
    let none: Vec<(EntityId, BackToSpot)> = Vec::new();
    let states: Vec<(EntityId, BackToState<u8>)> = vec![(e(12), BackToState::new(9)), (e(11), BackToState::new(3))];
    let mut i = Interaction::new();
    let out = prepare_interaction(&mut i, true, false, &DraggingItem::new(), &at(11, "Camera_Cup"), &scene(), &none, &states);
    assert_eq!(out.len(), 3);
    assert!(matches!(out[0], Effect::SetState(3)));
    assert_eq!(move_name(&out[1]), Some("Camera_Main"));
    assert!(matches!(out[2], Effect::StopLooking));
}

#[test]
fn interactive_far_away_moves_the_camera_first() {
    let mut lock = Lock { opened: false };
    let mut inv = Inventory::new();
    let mut state = WorldState::new();
    let out = interactive(e(1), &mut lock, &scene(), &at(10, "Camera_Main"), &DraggingItem::new(), &mut inv, &mut state);
    assert_eq!(out.len(), 2);
    assert_eq!(move_name(&out[0]), Some("Camera_Cup"));
    assert!(matches!(out[1], Effect::LookAt(x) if x == e(1)));
    assert!(!lock.opened);
}

#[test]
fn interactive_at_its_spot_interacts() {
    let mut lock = Lock { opened: false };
    let mut inv = Inventory::new();
    let mut state = WorldState::new();
    let out = interactive(e(1), &mut lock, &scene(), &at(11, "Camera_Cup"), &DraggingItem::new(), &mut inv, &mut state);
    assert_eq!(out.len(), 2);
    assert!(matches!(&out[0], Effect::PlayAudio(n) if n == "rattle"));
    assert!(matches!(out[1], Effect::SetState(7)));
}

#[test]
fn interactive_without_spot_uses_dragged_item() {
    let mut lock = Lock { opened: false };
    let mut inv = Inventory::new();
    inv.insert(Item::new("key"));
    let mut state = WorldState::new();
    let dragging = DraggingItem { src: Some(Item::new("key")), dst: None };
    let out = interactive(e(5), &mut lock, &scene(), &CurrentSpot::empty(), &dragging, &mut inv, &mut state);
    assert!(lock.opened);
    assert_eq!(state.get("lock").as_deref(), Some("open"));
    assert!(!inv.contains(&Item::new("key")));
    assert!(inv.contains(&Item::new("gem")));
    assert_eq!(out.len(), 2);
    assert!(matches!(&out[0], Effect::Show(Message::Text(t)) if t == "Unlocked."));
    assert!(matches!(&out[1], Effect::Show(Message::ItemPickup(i)) if i.as_str() == "gem"));
}

#[test]
fn wrong_item_is_kept() {
    let mut lock = Lock { opened: false };
    let mut inv = Inventory::new();
    inv.insert(Item::new("spoon"));
    let mut state = WorldState::new();
    let dragging = DraggingItem { src: Some(Item::new("spoon")), dst: None };
    let out = interactive(e(5), &mut lock, &scene(), &CurrentSpot::empty(), &dragging, &mut inv, &mut state);
    assert!(inv.contains(&Item::new("spoon")));
    assert_eq!(out.len(), 1);
    assert!(matches!(&out[0], Effect::Show(Message::InvalidItemUsed)));
}

#[test]
fn actions_become_effects() {
    let mut inv = Inventory::new();
    let actions: Vec<Action<u8>> = vec![
        Action::AddItem(Item::new("coin")),
        Action::Animation("wave".to_string()),
        Action::Audio("ding".to_string()),
        Action::Message(Message::InvalidItemUsed),
        Action::Transition(4),
        Action::Move("Camera_Cup".to_string()),
        Action::Jump("Camera_Main".to_string()),
        Action::AddItem(Item::new("coin")),
    ];
    let out = apply_actions(actions, &mut inv);
    assert_eq!(out.len(), 8);
    assert!(matches!(&out[0], Effect::Show(Message::ItemPickup(i)) if i.as_str() == "coin"));
    assert!(matches!(&out[1], Effect::PlayAnimation(n) if n == "wave"));
    assert!(matches!(&out[2], Effect::PlayAudio(n) if n == "ding"));
    assert!(matches!(&out[3], Effect::Show(Message::InvalidItemUsed)));
    assert!(matches!(&out[4], Effect::SetState(4)));
    assert!(matches!(&out[5], Effect::MoveTo(n) if n == "Camera_Cup"));
    assert!(matches!(&out[6], Effect::JumpTo(n) if n == "Camera_Main"));
    assert_eq!(inv.items().len(), 1);
    assert!(inv.contains(&Item::new("coin")));
}

#[test]
fn hover_ignores_collects_both_lists() {
    let cmds = CommandsExt::new(vec![named(1, "Cup"), named(2, "Drawer"), named(3, "Glass"), named(4, "Cup")]);
    let spots = scene();
    let ignores = vec![(e(11), Ignores::single("Glass")), (e(1), Ignores::new(vec!["Cup", "Drawer"]))];
    let out = hover_ignores(&cmds, &spots, &at(11, "Camera_Cup"), &ignores);
    assert_eq!(out, vec![e(3), e(1), e(2), e(4)]);
    let none = hover_ignores(&cmds, &spots, &at(10, "Camera_Main"), &ignores);
    assert!(none.is_empty());
    assert!(!hoverable(&out, e(3)));
    assert!(hoverable(&out, e(9)));
}

#[test]
fn interaction_state_values() {
    assert_eq!(State::Ready, State::Ready);
    assert_ne!(State::Prepared, State::Complete);
}
