use dino_runner::components::{AnimationIndices, Collider, GameState, Health, Velocity};
use dino_runner::math::{Vec2, Vec3};
use dino_runner::movement::{apply_gravity, GRAVITY, GROUND_LEVEL};
use dino_runner::player::{
    animate_sprite, change_time_speed, check_health, crouch, drop_player, jump, Player, Stance,
};

#[test]
fn the_player_starts_running_on_the_ground() {
    let player = Player::new();
    assert_eq!(player.translation, Vec3::new(-300_000, -330_000, 1_000));
    assert_eq!(player.velocity, Velocity(Vec3::new(0, 0, 0)));
    assert_eq!(player.stance, Stance::Run);
    assert_eq!(player.animation, AnimationIndices { first: 0, last: 15 });
    assert_eq!(player.frame, 0);
    assert_eq!(player.hitbox, Collider { size: Vec2::new(134_000, 142_279) });
    assert_eq!(player.hitbox_offset, Vec3::new(33_000, 71_139, 0));
}

#[test]
fn the_pictures_of_the_player_have_their_sizes() {
    assert_eq!(Stance::Run.sprite_size(), Vec2::new(200_000, 142_279));
    assert_eq!(Stance::Jump.sprite_size(), Vec2::new(200_000, 200_928));
    assert_eq!(Stance::Dash.sprite_size(), Vec2::new(200_000, 126_608));
    assert_eq!(Stance::Die.sprite_size(), Vec2::new(200_000, 158_209));
}

#[test]
fn the_hitbox_is_placed_in_the_world() {
    let player = Player::new();
    let hitbox = player.collider(Health(4));
    assert_eq!(hitbox.position, Vec3::new(-267_000, -258_861, 1_000));
    assert_eq!(hitbox.collider, player.hitbox);
    assert_eq!(hitbox.health, Health(4));
}

#[test]
fn a_jump_starts_from_the_ground() {
    let mut player = Player::new();
    jump(&mut player);
    assert_eq!(player.velocity.0.y, 1_900);
    assert_eq!(player.stance, Stance::Jump);
    assert_eq!(player.animation, AnimationIndices { first: 3, last: 11 });
    assert_eq!(player.frame, 3);
    assert_eq!(player.hitbox, Collider { size: Vec2::new(134_000, 150_696) });
    assert_eq!(player.hitbox_offset, Vec3::new(33_000, 71_139, 0));
    assert_eq!(player.translation, Player::new().translation);
}

#[test]
fn there_is_no_jump_in_the_air() {
    let mut player = Player::new();
    player.translation.y = GROUND_LEVEL + 1;
    player.velocity = Velocity(Vec3::new(0, -20, 0));
    let before = player;
    jump(&mut player);
    assert_eq!(player, before);
}

#[test]
fn a_jump_rises_and_lands_running() {
    let mut player = Player::new();
    jump(&mut player);
    apply_gravity(&mut player.velocity, GRAVITY, 16);
    drop_player(&mut player, 16);
    assert_eq!(player.velocity.0.y, 1_836);
    assert_eq!(player.translation.y, -330_000 + 29_376);
    assert_eq!(player.stance, Stance::Jump);
    let mut highest = player.translation.y;
    let mut ticks = 1;
    while player.stance == Stance::Jump {
        apply_gravity(&mut player.velocity, GRAVITY, 16);
        drop_player(&mut player, 16);
        highest = std::cmp::max(highest, player.translation.y);
        assert!(player.translation.y >= GROUND_LEVEL);
        ticks += 1;
        assert!(ticks < 100);
    }
    assert_eq!(ticks, 59);
    assert_eq!(highest, -330_000 + 436_160);
    assert_eq!(player.translation.y, GROUND_LEVEL);
    assert_eq!(player.velocity.0.y, 0);
    assert_eq!(player.stance, Stance::Run);
    assert_eq!(player.animation, AnimationIndices { first: 0, last: 15 });
    assert_eq!(player.frame, 0);
    assert_eq!(player.hitbox, Collider { size: Vec2::new(134_000, 142_279) });
}

#[test]
fn a_player_on_the_ground_stays_on_it() {
    let mut player = Player::new();
    player.frame = 9;
    apply_gravity(&mut player.velocity, GRAVITY, 16);
    drop_player(&mut player, 16);
    let mut expected = Player::new();
    expected.frame = 9;
    assert_eq!(player, expected);
}

#[test]
fn ducking_shrinks_the_hitbox_and_letting_go_restores_it() {
    let mut player = Player::new();
    player.frame = 5;
    crouch(&mut player, true);
    assert_eq!(player.stance, Stance::Dash);
    assert_eq!(player.frame, 0);
    assert_eq!(player.hitbox, Collider { size: Vec2::new(134_000, 94_956) });
    assert_eq!(player.hitbox_offset, Vec3::new(33_000, 47_478, 0));
    assert_eq!(player.animation, AnimationIndices { first: 0, last: 15 });
    player.frame = 7;
    let ducking = player;
    crouch(&mut player, true);
    assert_eq!(player, ducking);
    crouch(&mut player, false);
    assert_eq!(player.stance, Stance::Run);
    assert_eq!(player.frame, 0);
    assert_eq!(player.hitbox, Collider { size: Vec2::new(134_000, 142_279) });
    assert_eq!(player.hitbox_offset, Vec3::new(33_000, 71_139, 0));
}

#[test]
fn the_animation_starts_over_after_its_last_frame() {
    let mut player = Player::new();
    for expected in [1usize, 2, 3] {
        animate_sprite(&mut player);
        assert_eq!(player.frame, expected);
    }
    player.frame = 15;
    animate_sprite(&mut player);
    assert_eq!(player.frame, 0);
    player.animation = AnimationIndices { first: 3, last: 11 };
    player.frame = 40;
    animate_sprite(&mut player);
    assert_eq!(player.frame, 3);
    let indices = AnimationIndices { first: 2, last: usize::MAX };
    assert_eq!(indices.next(usize::MAX), 2);
    assert_eq!(indices.next(usize::MAX - 1), usize::MAX);
}

#[test]
fn the_game_is_over_when_no_health_is_left() {
    let mut player = Player::new();
    player.frame = 6;
    let before = player;
    assert_eq!(check_health(&mut player, &Health(1)), GameState::InGame);
    assert_eq!(player, before);
    assert_eq!(check_health(&mut player, &Health(0)), GameState::GameOver);
    assert_eq!(player.stance, Stance::Die);
    assert_eq!(player.animation, AnimationIndices { first: 0, last: 7 });
    assert_eq!(player.frame, 0);
    assert_eq!(player.hitbox, before.hitbox);
    player.frame = 4;
    let dying = player;
    assert_eq!(check_health(&mut player, &Health(0)), GameState::GameOver);
    assert_eq!(player, dying);
}

#[test]
fn the_clock_speeds_up_to_three_times() {
    assert_eq!(change_time_speed(1_000), 1_020);
    assert_eq!(change_time_speed(2_980), 3_000);
    assert_eq!(change_time_speed(2_981), 3_000);
    assert_eq!(change_time_speed(3_000), 3_000);
    assert_eq!(change_time_speed(u32::MAX), 3_000);
}
