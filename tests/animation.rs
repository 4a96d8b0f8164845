use bevy_adventure::animation::{animation_path, play_animation, play_animations};
use bevy_adventure::scene::scene_hook;
use bevy_adventure::{AnimationQueue, ClipRegistry, EntityId, EntityMap, MAIN_CAMERA};

fn e(bits: u64) -> EntityId {
    EntityId::from_bits(bits)
}

#[test]
fn animation_paths_use_the_scene_file() {
    assert_eq!(animation_path("scenes/bathroom.glb#Scene0", "Open"), "scenes/bathroom.glb#Open");
    assert_eq!(animation_path("scenes/room.glb", "Wave"), "scenes/room.glb#Wave");
    assert_eq!(animation_path("a#b#c", "x"), "a#b#x");
    assert_eq!(animation_path("", "x"), "#x");
}

#[test]
fn registry_finds_handles_by_name() {
    let mut r = ClipRegistry::new();
    assert_eq!(r.get("door"), None);
    r.insert("door", 3);
    r.insert("lamp", 4);
    assert_eq!(r.get("door"), Some(3));
    r.insert("door", 5);
    assert_eq!(r.get("door"), Some(5));
    assert_eq!(r.get("lamp"), Some(4));
}

#[test]
fn queue_pops_last_pushed_first() {
    let mut q = AnimationQueue::new();
    q.push(e(1), 10);
    q.push(e(1), 11);
    q.push(e(2), 20);
    let mut keys = q.keys();
    keys.sort_by_key(|k| k.to_bits());
    assert_eq!(keys, vec![e(1), e(2)]);
    assert_eq!(q.pop(e(1)), Some(11));
    assert_eq!(q.pop(e(1)), Some(10));
    assert_eq!(q.keys().len(), 2);
    assert_eq!(q.pop(e(1)), None);
    assert_eq!(q.keys(), vec![e(2)]);
    assert_eq!(q.pop(e(9)), None);
}

#[test]
fn a_frame_of_animations() {
    let mut q = AnimationQueue::new();
    q.push(e(1), 10);
    q.push(e(1), 11);
    q.push(e(2), 20);
    q.push(e(3), 30);
    // Entity 3 has no player.
    let players = vec![e(1), e(2)];
    let mut started = play_animations(&mut q, &Vec::new(), &players);
    started.sort();
    assert_eq!(started, vec![(e(1), 11), (e(2), 20)]);
    assert_eq!(q.playing(e(1)), Some(11));
    // Nothing finished: nothing new starts.
    assert!(play_animations(&mut q, &Vec::new(), &players).is_empty());
    // Entity 1 finished its clip and starts the next; entity 2 has none left.
    let started = play_animations(&mut q, &vec![e(1), e(2)], &players);
    assert_eq!(started, vec![(e(1), 10)]);
    assert_eq!(q.playing(e(2)), None);
    assert_eq!(q.playing_entities(), vec![e(1)]);
    let mut keys = q.keys();
    keys.sort();
    assert_eq!(keys, vec![e(1), e(3)]);
}

#[test]
fn play_animation_queues_on_targets() {
    let mut reg = ClipRegistry::new();
    reg.insert("wave", 7);
    let mut q = AnimationQueue::new();
    play_animation(&reg, &mut q, "wave", &vec![e(1), e(2), e(1)]);
    play_animation(&reg, &mut q, "missing", &vec![e(3)]);
    assert_eq!(q.pop(e(1)), Some(7));
    assert_eq!(q.pop(e(1)), Some(7));
    assert_eq!(q.pop(e(1)), None);
    assert_eq!(q.pop(e(2)), Some(7));
    assert_eq!(q.pop(e(3)), None);
}

#[test]
fn entity_map_basics() {
    let mut m: EntityMap<u32> = EntityMap::new();
    m.insert(e(2), 20);
    m.insert(e(1), 10);
    m.insert(e(2), 21);
    assert_eq!(m.keys(), vec![e(2), e(1)]);
    assert_eq!(m.get(e(2)), Some(&21));
    assert!(m.contains_key(e(1)));
    assert_eq!(m.remove(e(2)), Some(21));
    assert_eq!(m.remove(e(2)), None);
    assert_eq!(m.keys(), vec![e(1)]);
}

#[test]
fn scene_hook_turns_cameras_into_spots() {
    let main = scene_hook(e(1), true, Some(MAIN_CAMERA), Some(5), false);
    assert!(main.make_spot);
    assert!(!main.enable_shadows);
    let s = main.main_spot.unwrap();
    assert_eq!(s.name(), "Camera_Main");
    assert_eq!(s.entity(), e(1));
    assert_eq!(s.transform(), 5);
    let other = scene_hook(e(2), true, Some("Camera_Cup"), Some(6), false);
    assert!(other.make_spot);
    assert!(other.main_spot.is_none());
    let light = scene_hook::<i32>(e(3), false, Some("Camera_Main"), None, true);
    assert!(!light.make_spot);
    assert!(light.enable_shadows);
    assert!(light.main_spot.is_none());
}
