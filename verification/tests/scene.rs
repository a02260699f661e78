use dino_runner::components::{Collider, HealthPickup};
use dino_runner::math::{Vec2, Vec3};
use dino_runner::scene::{Node, Part, Scene, Shape};

fn plain(parent: Option<usize>, x: i64, y: i64) -> Node {
    Node {
        parent,
        translation: Vec3::new(x, y, 0),
        rotation: 0,
        shape: Shape::Empty,
        part: Part::Segment,
    }
}

#[test]
fn a_new_scene_is_empty() {
    let scene = Scene::new();
    assert_eq!(scene.len(), 0);
    assert_eq!(scene.get(0), None);
    assert!(!scene.is_alive(0));
    assert!(scene.world_translations().is_empty());
}

#[test]
fn spawn_returns_consecutive_slots() {
    let mut scene = Scene::new();
    assert_eq!(scene.spawn(plain(None, 1, 1)), Some(0));
    assert_eq!(scene.spawn(plain(Some(0), 2, 2)), Some(1));
    assert_eq!(scene.spawn(plain(Some(1), 3, 3)), Some(2));
    assert_eq!(scene.len(), 3);
    assert_eq!(scene.get(1), Some(plain(Some(0), 2, 2)));
    assert_eq!(scene.get(3), None);
}

#[test]
fn spawn_refuses_a_node_whose_parent_is_missing() {
    let mut scene = Scene::new();
    assert_eq!(scene.spawn(plain(Some(0), 0, 0)), None);
    assert_eq!(scene.len(), 0);
    assert_eq!(scene.spawn(plain(None, 0, 0)), Some(0));
    assert_eq!(scene.spawn(plain(Some(1), 0, 0)), None);
    assert_eq!(scene.spawn(plain(Some(7), 0, 0)), None);
    assert_eq!(scene.len(), 1);
}

#[test]
fn spawn_refuses_a_node_whose_parent_was_removed() {
    let mut scene = Scene::new();
    scene.spawn(plain(None, 0, 0));
    scene.despawn(0);
    assert_eq!(scene.spawn(plain(Some(0), 0, 0)), None);
    assert_eq!(scene.len(), 1);
}

#[test]
fn despawn_removes_a_node_with_its_descendants_only() {
    let mut scene = Scene::new();
    scene.spawn(plain(None, 0, 0)); // 0
    scene.spawn(plain(Some(0), 0, 0)); // 1
    scene.spawn(plain(Some(1), 0, 0)); // 2
    scene.spawn(plain(Some(0), 0, 0)); // 3
    scene.spawn(plain(None, 0, 0)); // 4
    scene.spawn(plain(Some(2), 0, 0)); // 5
    scene.despawn(1);
    let alive: Vec<bool> = (0..6).map(|i| scene.is_alive(i)).collect();
    assert_eq!(alive, vec![true, false, false, true, true, false]);
    assert_eq!(scene.len(), 6);
    scene.despawn(1);
    scene.despawn(99);
    let alive: Vec<bool> = (0..6).map(|i| scene.is_alive(i)).collect();
    assert_eq!(alive, vec![true, false, false, true, true, false]);
}

#[test]
fn sweep_removes_every_marked_subtree() {
    let mut scene = Scene::new();
    scene.spawn(plain(None, 0, 0)); // 0
    scene.spawn(plain(Some(0), 0, 0)); // 1
    scene.spawn(plain(None, 0, 0)); // 2
    scene.spawn(plain(Some(2), 0, 0)); // 3
    scene.spawn(plain(Some(3), 0, 0)); // 4
    scene.spawn(plain(None, 0, 0)); // 5
    scene.sweep(&vec![false, true, true, false, false, false]);
    let alive: Vec<bool> = (0..6).map(|i| scene.is_alive(i)).collect();
    assert_eq!(alive, vec![true, false, false, false, false, true]);
}

#[test]
fn world_translations_add_up_from_the_root_down() {
    let mut scene = Scene::new();
    scene.spawn(plain(None, 100, -10)); // 0
    scene.spawn(plain(Some(0), 20, 5)); // 1
    scene.spawn(plain(Some(1), 3, 1)); // 2
    scene.spawn(plain(None, 7, 7)); // 3
    let world = scene.world_translations();
    assert_eq!(world[0], Vec3::new(100, -10, 0));
    assert_eq!(world[1], Vec3::new(120, -5, 0));
    assert_eq!(world[2], Vec3::new(123, -4, 0));
    assert_eq!(world[3], Vec3::new(7, 7, 0));
    scene.despawn(3);
    assert_eq!(scene.world_translations()[3], Vec3::new(0, 0, 0));
}

#[test]
fn world_translations_stop_at_the_ends_of_the_range() {
    let mut scene = Scene::new();
    scene.spawn(plain(None, i64::MAX, i64::MIN));
    scene.spawn(plain(Some(0), 5, -5));
    let world = scene.world_translations();
    assert_eq!(world[1], Vec3::new(i64::MAX, i64::MIN, 0));
}

#[test]
fn replace_changes_one_node() {
    let mut scene = Scene::new();
    scene.spawn(plain(None, 0, 0));
    scene.spawn(plain(Some(0), 1, 1));
    let mut moved = plain(Some(0), 9, 9);
    moved.part = Part::HealthPickup(HealthPickup(Collider { size: Vec2::new(2, 2) }));
    scene.replace(1, moved);
    assert_eq!(scene.get(1), Some(moved));
    assert_eq!(scene.get(0), Some(plain(None, 0, 0)));
}

#[test]
fn only_hitbox_parts_carry_a_collider() {
    let collider = Collider { size: Vec2::new(4, 6) };
    assert_eq!(Part::HealthPickup(HealthPickup(collider)).collider(), Some(collider));
    assert_eq!(Part::Trunk.collider(), None);
    assert_eq!(Part::Cap.collider(), None);
    assert_eq!(Part::Spike.collider(), None);
    assert_eq!(Part::Segment.collider(), None);
    assert_eq!(collider.half_size(), Vec2::new(2, 3));
    assert_eq!(Collider { size: Vec2::new(5, 7) }.half_size(), Vec2::new(2, 3));
}

#[test]
fn every_node_knows_the_root_of_its_tree() {
    let mut scene = Scene::new();
    scene.spawn(plain(None, 0, 0)); // 0
    scene.spawn(plain(Some(0), 0, 0)); // 1
    scene.spawn(plain(None, 0, 0)); // 2
    scene.spawn(plain(Some(1), 0, 0)); // 3
    scene.spawn(plain(Some(2), 0, 0)); // 4
    scene.spawn(plain(Some(3), 0, 0)); // 5
    assert_eq!(scene.roots(), vec![0, 0, 2, 0, 2, 0]);
    scene.despawn(2);
    assert_eq!(scene.roots(), vec![0, 0, 2, 0, 4, 0]);
    assert!(scene.is_well_formed());
}
