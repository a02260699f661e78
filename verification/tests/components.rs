use dino_runner::background::{scroll_background, Layer};
use dino_runner::components::{Health, IsHit, Reaction, Velocity, INITIAL_HEALTH};
use dino_runner::game::{restart_game, score};
use dino_runner::components::GameState;
use dino_runner::math::{
    add_saturating, mul_add_saturating, saturate, sub_saturating, Vec2, Vec3,
};
use dino_runner::player::{Player, Stance};
use dino_runner::scene::{Node, Part, Scene, Shape};
use dino_runner::spawner::{build_pickup, build_pterodactyl};
use dino_runner::cactus::{build_cactus, ArmDraws, CactusDraws, CactusParams};

#[test]
fn repeated_damage_stops_at_zero() {
    let mut health = Health(3);
    let mut seen = Vec::new();
    for _ in 0..6 {
        health.damage();
        seen.push(health.0);
    }
    assert_eq!(seen, vec![2, 1, 0, 0, 0, 0]);
}

#[test]
fn repeated_healing_stops_at_the_greatest_number() {
    let mut health = Health(usize::MAX - 2);
    let mut seen = Vec::new();
    for _ in 0..4 {
        health.heal();
        seen.push(health.0);
    }
    assert_eq!(seen, vec![usize::MAX - 1, usize::MAX, usize::MAX, usize::MAX]);
    let mut health = Health(0);
    health.heal();
    assert_eq!(health, Health(1));
}

#[test]
fn the_game_starts_with_one_health() {
    assert_eq!(INITIAL_HEALTH, 1);
}

#[test]
fn a_strike_sets_a_part_falling_from_rest() {
    let mut reaction = Reaction::new();
    assert_eq!(reaction.is_hit, IsHit(false));
    assert_eq!(reaction.velocity, Velocity(Vec3::new(0, 0, 0)));
    reaction.velocity = Velocity(Vec3::new(4, -900, 6));
    reaction.strike();
    assert_eq!(reaction.is_hit, IsHit(true));
    assert_eq!(reaction.velocity, Velocity(Vec3::new(4, 0, 6)));
    assert_eq!(reaction.angular_velocity, 458);
}

#[test]
fn saturating_arithmetic_stops_at_the_ends_of_the_range() {
    assert_eq!(saturate(5), 5);
    assert_eq!(saturate(i128::MAX), i64::MAX);
    assert_eq!(saturate(i128::MIN), i64::MIN);
    assert_eq!(add_saturating(i64::MAX, 1), i64::MAX);
    assert_eq!(add_saturating(-3, 10), 7);
    assert_eq!(sub_saturating(i64::MIN, 1), i64::MIN);
    assert_eq!(sub_saturating(0, i64::MIN), i64::MAX);
    assert_eq!(mul_add_saturating(1, 2, 3), 7);
    assert_eq!(mul_add_saturating(0, i64::MIN, i64::MIN), i64::MAX);
    assert_eq!(mul_add_saturating(0, i64::MIN, i64::MAX), i64::MIN);
    assert_eq!(
        Vec3::new(1, i64::MAX, i64::MIN).add_saturating(Vec3::new(2, 3, -4)),
        Vec3::new(3, i64::MAX, i64::MIN)
    );
}

#[test]
fn a_layer_grows_as_it_scrolls_and_is_cut_back_by_whole_pictures() {
    let mut layer = Layer { current_size_x: 1_920_000, speed_scale: 1_000 };
    scroll_background(&mut layer, 16);
    assert_eq!(layer, Layer { current_size_x: 1_936_000, speed_scale: 1_000 });
    let mut slow = Layer { current_size_x: 1_920_000, speed_scale: 250 };
    scroll_background(&mut slow, 16);
    assert_eq!(slow.current_size_x, 1_924_000);
    let mut wide = Layer { current_size_x: 6_399_000, speed_scale: 1_000 };
    scroll_background(&mut wide, 1);
    assert_eq!(wide.current_size_x, 640_000 + 1_920_000);
    let mut wider = Layer { current_size_x: 6_399_000, speed_scale: 1_000 };
    scroll_background(&mut wider, 5);
    assert_eq!(wider.current_size_x, 644_000 + 1_920_000);
    let mut still = Layer { current_size_x: 6_399_999, speed_scale: 0 };
    scroll_background(&mut still, 1_000);
    assert_eq!(still.current_size_x, 6_399_999);
}

#[test]
fn the_score_is_the_whole_seconds_survived() {
    assert_eq!(score(12_999, 2_000), 10);
    assert_eq!(score(2_000, 2_000), 0);
    assert_eq!(score(1_000, 2_000), 0);
    assert_eq!(score(u64::MAX, 0), u64::MAX / 1000);
}

fn crowded_scene() -> Scene {
    let mut scene = Scene::new();
    let draws = CactusDraws {
        trunk_height: 58,
        trunk_width: 23_000,
        flower_roll: 50,
        first_arm: ArmDraws { height: 20_000, caps_roll: 0 },
        second_arm: ArmDraws { height: 20_000, caps_roll: 0 },
    };
    build_cactus(&mut scene, &CactusParams::default(), Vec2::new(0, 0), &draws);
    build_pterodactyl(&mut scene, Vec2::new(0, 0));
    build_pickup(&mut scene, Vec2::new(0, 0));
    scene.spawn(Node {
        parent: None,
        translation: Vec3::new(0, 0, 0),
        rotation: 0,
        shape: Shape::Empty,
        part: Part::Segment,
    });
    scene
}

#[test]
fn the_space_bar_restarts_the_game_and_revives_the_player() {
    let mut scene = crowded_scene();
    let mut player = Player::new();
    player.stance = Stance::Die;
    player.animation.last = 7;
    player.frame = 7;
    let mut health = Health(0);
    let state = restart_game(&mut scene, &mut player, &mut health, true);
    assert_eq!(state, GameState::InGame);
    assert_eq!(health, Health(1));
    assert_eq!(player, Player::new());
    assert_eq!(scene.len(), 16);
    for slot in 0..15 {
        assert!(!scene.is_alive(slot));
    }
    assert!(scene.is_alive(15));
}

#[test]
fn another_key_restarts_the_game_and_leaves_the_player() {
    let mut scene = crowded_scene();
    let mut player = Player::new();
    player.stance = Stance::Die;
    let before = player;
    let mut health = Health(0);
    let state = restart_game(&mut scene, &mut player, &mut health, false);
    assert_eq!(state, GameState::InGame);
    assert_eq!(health, Health(0));
    assert_eq!(player, before);
    for slot in 0..15 {
        assert!(!scene.is_alive(slot));
    }
    assert!(scene.is_alive(15));
}
