use bevy_prng::WyRand;
use dino_runner::cactus::{ArmDraws, CactusDraws, CactusParams};
use dino_runner::components::{AnimationIndices, Collider};
use dino_runner::math::{Vec2, Vec3};
use dino_runner::scene::{Node, Part, Scene, Shape};
use dino_runner::spawner::{
    build_obstacle, build_pickup, build_pterodactyl, draw_obstacle, spawn_kind, spawn_obstacles,
    spawn_x, ObstacleDraws, SpawnDraws, SpawnKind,
};
use rand::Rng;
use rand_core::{RngCore, SeedableRng};

fn nodes_of(scene: &Scene) -> Vec<Node> {
    (0..scene.len()).map(|i| scene.get(i).unwrap()).collect()
}

fn small_cactus() -> CactusDraws {
    CactusDraws {
        trunk_height: 58,
        trunk_width: 23_000,
        flower_roll: 50,
        first_arm: ArmDraws { height: 20_000, caps_roll: 0 },
        second_arm: ArmDraws { height: 20_000, caps_roll: 0 },
    }
}

#[test]
fn the_kind_goes_by_the_remainder_of_the_draw() {
    assert_eq!(spawn_kind(0), SpawnKind::Pterodactyl);
    assert_eq!(spawn_kind(14), SpawnKind::Pterodactyl);
    assert_eq!(spawn_kind(15), SpawnKind::HealthPickup);
    assert_eq!(spawn_kind(29), SpawnKind::HealthPickup);
    assert_eq!(spawn_kind(30), SpawnKind::Cactus);
    assert_eq!(spawn_kind(99), SpawnKind::Cactus);
    assert_eq!(spawn_kind(100), SpawnKind::Pterodactyl);
    assert_eq!(spawn_kind(1_229), SpawnKind::HealthPickup);
    assert_eq!(spawn_kind(u32::MAX), SpawnKind::Cactus);
}

#[test]
fn obstacles_enter_beyond_the_right_end_of_the_ground() {
    assert_eq!(spawn_x(0, 0), 750_000);
    assert_eq!(spawn_x(0, 299), 1_049_000);
    assert_eq!(spawn_x(0, 300), 750_000);
    assert_eq!(spawn_x(-20_000, 451), 881_000);
    assert_eq!(spawn_x(i64::MAX, 10), i64::MAX);
}

#[test]
fn a_pterodactyl_enters_with_its_hitbox() {
    let mut scene = Scene::new();
    let bird = build_pterodactyl(&mut scene, Vec2::new(800_000, 120_000));
    assert_eq!(bird, 0);
    let nodes = nodes_of(&scene);
    assert_eq!(nodes.len(), 2);
    assert_eq!(nodes[0].parent, None);
    assert_eq!(nodes[0].translation, Vec3::new(800_000, 120_000, 0));
    assert_eq!(nodes[0].shape, Shape::Rectangle { width: 100_000, height: 112_529 });
    match nodes[0].part {
        Part::Pterodactyl(pterodactyl) => {
            assert!(!pterodactyl.reaction.is_hit.0);
            assert_eq!(pterodactyl.animation, AnimationIndices { first: 0, last: 11 });
        }
        other => panic!("slot 0 holds {:?}", other),
    }
    assert_eq!(nodes[1].parent, Some(0));
    assert_eq!(nodes[1].translation, Vec3::new(0, 0, 0));
    assert_eq!(
        nodes[1].part.collider(),
        Some(Collider { size: Vec2::new(100_000, 112_529) })
    );
}

#[test]
fn a_pickup_enters_as_its_own_hitbox() {
    let mut scene = Scene::new();
    scene.spawn(Node {
        parent: None,
        translation: Vec3::new(0, 0, 0),
        rotation: 0,
        shape: Shape::Empty,
        part: Part::Trunk,
    });
    let pickup = build_pickup(&mut scene, Vec2::new(-5, 9));
    assert_eq!(pickup, 1);
    let nodes = nodes_of(&scene);
    assert_eq!(nodes.len(), 2);
    assert_eq!(nodes[1].parent, None);
    assert_eq!(nodes[1].translation, Vec3::new(-5, 9, 0));
    assert_eq!(nodes[1].shape, Shape::Rectangle { width: 40_000, height: 33_602 });
    assert_eq!(nodes[1].part.collider(), Some(Collider { size: Vec2::new(40_000, 33_602) }));
}

#[test]
fn draws_that_do_not_fit_their_kind_are_told_apart() {
    let params = CactusParams::default();
    let sky = SpawnDraws { x_roll: 0, kind_roll: 10, rest: ObstacleDraws::Sky { height: 0 } };
    assert!(sky.is_within(&params));
    let low = SpawnDraws { x_roll: 0, kind_roll: 10, rest: ObstacleDraws::Sky { height: -230_001 } };
    assert!(!low.is_within(&params));
    let high = SpawnDraws { x_roll: 0, kind_roll: 20, rest: ObstacleDraws::Sky { height: 330_000 } };
    assert!(!high.is_within(&params));
    let wrong = SpawnDraws { x_roll: 0, kind_roll: 30, rest: ObstacleDraws::Sky { height: 0 } };
    assert!(!wrong.is_within(&params));
    let ground =
        SpawnDraws { x_roll: 0, kind_roll: 30, rest: ObstacleDraws::Ground { cactus: small_cactus() } };
    assert!(ground.is_within(&params));
    let misplaced =
        SpawnDraws { x_roll: 0, kind_roll: 29, rest: ObstacleDraws::Ground { cactus: small_cactus() } };
    assert!(!misplaced.is_within(&params));
}

#[test]
fn each_kind_of_draw_builds_its_obstacle() {
    let params = CactusParams::default();
    let mut scene = Scene::new();
    let bird = build_obstacle(
        &mut scene,
        &params,
        1_000,
        &SpawnDraws { x_roll: 7, kind_roll: 114, rest: ObstacleDraws::Sky { height: -230_000 } },
    );
    let pickup = build_obstacle(
        &mut scene,
        &params,
        1_000,
        &SpawnDraws { x_roll: 8, kind_roll: 15, rest: ObstacleDraws::Sky { height: 329_999 } },
    );
    let cactus = build_obstacle(
        &mut scene,
        &params,
        1_000,
        &SpawnDraws { x_roll: 9, kind_roll: 30, rest: ObstacleDraws::Ground { cactus: small_cactus() } },
    );
    assert_eq!((bird, pickup, cactus), (0, 2, 3));
    let nodes = nodes_of(&scene);
    assert_eq!(nodes.len(), 15);
    assert!(matches!(nodes[0].part, Part::Pterodactyl(_)));
    assert_eq!(nodes[0].translation, Vec3::new(758_000, -230_000, 0));
    assert!(matches!(nodes[1].part, Part::PterodactylCollider(_)));
    assert!(matches!(nodes[2].part, Part::HealthPickup(_)));
    assert_eq!(nodes[2].translation, Vec3::new(759_000, 329_999, 0));
    assert!(matches!(nodes[3].part, Part::CactusRoot(_)));
    assert_eq!(nodes[3].translation, Vec3::new(760_000, -330_000, 0));
    assert_eq!(nodes[4].parent, Some(3));
}

#[test]
fn spawning_an_obstacle_is_drawing_then_building() {
    let params = CactusParams::default();
    for seed in 0..60u64 {
        let mut rng = WyRand::seed_from_u64(seed);
        let mut replay = WyRand::seed_from_u64(seed);
        let mut spawned = Scene::new();
        let root = spawn_obstacles(&mut spawned, &params, 12_000, &mut rng);
        assert_eq!(root, 0);
        let draws = draw_obstacle(&params, &mut replay);
        assert!(draws.is_within(&params));
        let mut rebuilt = Scene::new();
        build_obstacle(&mut rebuilt, &params, 12_000, &draws);
        assert_eq!(nodes_of(&spawned), nodes_of(&rebuilt));
        assert_eq!(rng.next_u32(), replay.next_u32());
    }
}

#[test]
fn the_draws_of_a_spawn_are_made_in_their_fixed_order() {
    let params = CactusParams::default();
    let mut kinds = Vec::new();
    for seed in 0..60u64 {
        let mut rng = WyRand::seed_from_u64(seed);
        let mut by_hand = WyRand::seed_from_u64(seed);
        let draws = draw_obstacle(&params, &mut rng);
        assert_eq!(draws.x_roll, by_hand.next_u32());
        assert_eq!(draws.kind_roll, by_hand.next_u32());
        match draws.rest {
            ObstacleDraws::Sky { height } => {
                let expected: i32 = by_hand.gen_range(-230_000..=329_999);
                assert_eq!(height, expected);
            }
            ObstacleDraws::Ground { cactus } => {
                let expected: i32 = by_hand.gen_range(58..=157);
                assert_eq!(cactus.trunk_height, expected);
            }
        }
        kinds.push(spawn_kind(draws.kind_roll));
    }
    assert!(kinds.contains(&SpawnKind::Cactus));
    assert!(kinds.contains(&SpawnKind::HealthPickup));
    assert!(kinds.contains(&SpawnKind::Pterodactyl));
}

#[test]
fn heights_in_the_sky_lie_in_their_range_and_vary() {
    let params = CactusParams::default();
    let mut heights = Vec::new();
    for seed in 0..400u64 {
        let mut rng = WyRand::seed_from_u64(seed);
        if let ObstacleDraws::Sky { height } = draw_obstacle(&params, &mut rng).rest {
            assert!((-230_000..=329_999).contains(&height));
            heights.push(height);
        }
    }
    heights.sort();
    heights.dedup();
    assert!(heights.len() > 50);
}
