use bevy_adventure::camera::{move_camera, resolve_next_spot};
use bevy_adventure::{
    BackToSpot, BackToState, CameraSpot, CameraSpots, CommandsExt, CurrentSpot, EntityId, Ignores,
    NamedEntity, NextSpot, SpotEntity, Tween, MAIN_CAMERA,
};

fn e(bits: u64) -> EntityId {
    EntityId::from_bits(bits)
}

fn named(bits: u64, name: &str) -> NamedEntity {
    NamedEntity { entity: e(bits), name: name.to_string() }
}

fn spot(bits: u64, name: &str, t: i32) -> SpotEntity<i32> {
    SpotEntity { entity: e(bits), name: name.to_string(), transform: t }
}

fn scene() -> CameraSpots<i32> {
    CameraSpots::new(
        vec![named(1, "Cup"), named(2, "Door"), named(3, "Door")],
        vec![spot(10, "Camera_Main", 100), spot(11, "Camera_Cup", 110), spot(12, "Camera_Cup", 120)],
    )
}

#[test]
fn entity_bits_round_trip() {
    assert_eq!(EntityId::from_bits(42).to_bits(), 42);
}

#[test]
fn spots_are_found_by_name() {
    let spots = scene();
    let s = spots.get("Camera_Cup").unwrap();
    assert_eq!(s.name(), "Camera_Cup");
    assert_eq!(s.entity(), e(11));
    assert_eq!(s.transform(), 110);
    assert!(spots.get("Camera_Door").is_none());
    assert_eq!(spots.get(MAIN_CAMERA).unwrap().entity(), e(10));
}

#[test]
fn spot_of_interactive_and_back() {
    let spots = scene();
    let s = spots.for_interactive(e(1)).unwrap();
    assert_eq!(s.name(), "Camera_Cup");
    assert!(spots.for_interactive(e(2)).is_none());
    assert!(spots.for_interactive(e(99)).is_none());
    assert_eq!(spots.for_spot(&s), Some(e(1)));
    let main = spots.get("Camera_Main").unwrap();
    assert_eq!(spots.for_spot(&main), None);
    let door = CameraSpot::new("Camera_Door", e(50), 0);
    assert_eq!(spots.for_spot(&door), Some(e(2)));
    let odd = CameraSpot::new("MyCamera_Door", e(51), 0);
    assert_eq!(spots.for_spot(&odd), Some(e(2)));
    let none = CameraSpot::new("Door", e(52), 0);
    assert_eq!(spots.for_spot(&none), None);
}

#[test]
fn camera_spot_accessors() {
    let mut s = CameraSpot::new("Camera_Main", e(1), 7);
    assert_eq!(s.name(), "Camera_Main");
    s.set_entity(e(2));
    assert_eq!(s.entity(), e(2));
    assert_eq!(s.transform(), 7);
    let mut cur = CurrentSpot::empty();
    assert!(!cur.is_some());
    cur = CurrentSpot::new(s);
    assert!(cur.is_some());
    assert_eq!(cur.name(), "Camera_Main");
    assert_eq!(cur.get().entity(), e(2));
}

#[test]
fn components_keep_their_values() {
    assert_eq!(BackToSpot::new("Camera_Hall").name, "Camera_Hall");
    assert_eq!(BackToState::new(3u8).state, 3);
    let ig = Ignores::new(vec!["a", "b"]);
    assert_eq!(ig.names, vec!["a".to_string(), "b".to_string()]);
    assert_eq!(Ignores::single("c").names, vec!["c".to_string()]);
}

#[test]
fn next_spot_waits_for_the_scene() {
    let spots = scene();
    let next = NextSpot("Camera_Cup".to_string());
    assert!(resolve_next_spot(false, Some(&next), &spots).is_none());
    assert!(resolve_next_spot(true, None, &spots).is_none());
    let s = resolve_next_spot(true, Some(&next), &spots).unwrap();
    assert_eq!(s.entity(), e(11));
    let missing = NextSpot("Camera_Attic".to_string());
    assert!(resolve_next_spot(true, Some(&missing), &spots).is_none());
}

#[test]
fn moving_the_camera() {
    let mut tf = 1;
    let mut tween = Tween::new(1);
    let mut cur = CurrentSpot::empty();
    move_camera(CameraSpot::new("Camera_Cup", e(11), 110), false, &mut tf, &mut tween, &mut cur);
    assert_eq!(tf, 1);
    assert_eq!(tween.target, 110);
    assert_eq!(cur.get().entity(), e(11));
    move_camera(CameraSpot::new("Camera_Main", e(10), 100), true, &mut tf, &mut tween, &mut cur);
    assert_eq!(tf, 100);
    assert_eq!(tween.target, 100);
    assert_eq!(cur.name(), "Camera_Main");
}

#[test]
fn named_lookups() {
    let cmds = CommandsExt::new(vec![named(1, "Cup"), named(2, "Door"), named(3, "Cup"), named(4, "Lamp")]);
    assert_eq!(cmds.named("Cup"), vec![e(1), e(3)]);
    assert_eq!(cmds.named("Attic"), Vec::<EntityId>::new());
    let targets = vec!["Lamp".to_string(), "Cup".to_string(), "Cup".to_string()];
    assert_eq!(cmds.named_any(&targets), vec![e(1), e(3), e(4)]);
    assert_eq!(cmds.named_any(&Vec::new()), Vec::<EntityId>::new());
}
