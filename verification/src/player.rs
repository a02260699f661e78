//! The player: running, jumping, ducking and dying, and the hitbox that
//! goes with each.
use vstd::prelude::*;
use crate::components::{
    AnimationIndices, Collider, GameState, Health, PlayerCollider, Velocity,
};
use crate::math::{clamp_i64, mul_add_saturating, Vec2, Vec3};
use crate::movement::GROUND_LEVEL;

verus! {

/// Upward speed of a jump as it starts.
pub const JUMP_FORCE: i64 = 1900;

/// Where the player stands, from left to right.
pub const PLAYER_X: i64 = -300_000;

/// Width of the player's picture, whatever the player does.
pub const DINO_SIZE_X: i64 = 200_000;

/// Height of the picture of the running player.
pub const DINO_RUN_SIZE_Y: i64 = 142_279;

/// Height of the picture of the ducking player.
pub const DINO_DASH_SIZE_Y: i64 = 126_608;

/// Height of the picture of the jumping player.
pub const DINO_JUMP_SIZE_Y: i64 = 200_928;

/// Height of the picture of the dying player.
pub const DINO_DIE_SIZE_Y: i64 = 158_209;

/// Width of the hitbox, in thousandths of the width of the picture.
pub const HIT_BOX_SCALE_X: i64 = 670;

/// Height of the hitbox of the jumping or ducking player, in thousandths of
/// the height of the picture.
pub const HIT_BOX_SCALE_Y: i64 = 750;

/// What the player is doing.
#[derive(Clone, Copy, Debug, PartialEq, Eq, Structural)]
pub enum Stance {
    Run,
    Jump,
    Dash,
    Die,
}

impl Stance {
    /// Size of the player's picture.
    pub open spec fn picture(self) -> Vec2 {
        match self {
            Stance::Run => Vec2 { x: DINO_SIZE_X, y: DINO_RUN_SIZE_Y },
            Stance::Jump => Vec2 { x: DINO_SIZE_X, y: DINO_JUMP_SIZE_Y },
            Stance::Dash => Vec2 { x: DINO_SIZE_X, y: DINO_DASH_SIZE_Y },
            Stance::Die => Vec2 { x: DINO_SIZE_X, y: DINO_DIE_SIZE_Y },
        }
    }

    /// Size of the player's picture.
    pub fn sprite_size(&self) -> (size: Vec2)
        ensures
            size == self.picture(),
    {
        match self {
            Stance::Run => Vec2 { x: DINO_SIZE_X, y: DINO_RUN_SIZE_Y },
            Stance::Jump => Vec2 { x: DINO_SIZE_X, y: DINO_JUMP_SIZE_Y },
            Stance::Dash => Vec2 { x: DINO_SIZE_X, y: DINO_DASH_SIZE_Y },
            Stance::Die => Vec2 { x: DINO_SIZE_X, y: DINO_DIE_SIZE_Y },
        }
    }
}

/// Hitbox of the running player: narrower than the picture, and as high.
pub open spec fn run_hitbox() -> Collider {
    Collider {
        size: Vec2 { x: (DINO_SIZE_X * HIT_BOX_SCALE_X / 1000) as i64, y: DINO_RUN_SIZE_Y },
    }
}

/// Hitbox of the jumping player: narrower and lower than the picture.
pub open spec fn jump_hitbox() -> Collider {
    Collider {
        size: Vec2 {
            x: (DINO_SIZE_X * HIT_BOX_SCALE_X / 1000) as i64,
            y: (DINO_JUMP_SIZE_Y * HIT_BOX_SCALE_Y / 1000) as i64,
        },
    }
}

/// Hitbox of the ducking player: narrower and lower than the picture.
pub open spec fn dash_hitbox() -> Collider {
    Collider {
        size: Vec2 {
            x: (DINO_SIZE_X * HIT_BOX_SCALE_X / 1000) as i64,
            y: (DINO_DASH_SIZE_Y * HIT_BOX_SCALE_Y / 1000) as i64,
        },
    }
}

/// Centre of the hitbox of the running player, seen from the player's
/// feet: at half its height, toward the front of the picture.
pub open spec fn run_hitbox_offset() -> Vec3 {
    Vec3 {
        x: (DINO_SIZE_X * (1000 - HIT_BOX_SCALE_X) / 1000 / 2) as i64,
        y: (DINO_RUN_SIZE_Y / 2) as i64,
        z: 0,
    }
}

/// Centre of the hitbox of the ducking player, seen from the player's feet.
pub open spec fn dash_hitbox_offset() -> Vec3 {
    Vec3 {
        x: (DINO_SIZE_X * (1000 - HIT_BOX_SCALE_X) / 1000 / 2) as i64,
        y: (DINO_DASH_SIZE_Y * HIT_BOX_SCALE_Y / 1000 / 2) as i64,
        z: 0,
    }
}

/// The player.
#[derive(Clone, Copy, Debug, PartialEq, Eq, Structural)]
pub struct Player {
    /// Where the player's feet are.
    pub translation: Vec3,
    pub velocity: Velocity,
    pub stance: Stance,
    /// The frames of the animation that plays.
    pub animation: AnimationIndices,
    /// The frame that shows.
    pub frame: usize,
    /// Size of the hitbox.
    pub hitbox: Collider,
    /// Centre of the hitbox, seen from the player's feet.
    pub hitbox_offset: Vec3,
}

impl Player {
    /// The player as the game starts: running, on the ground.
    pub open spec fn start() -> Player {
        Player {
            translation: Vec3 { x: PLAYER_X, y: GROUND_LEVEL, z: 1000 },
            velocity: Velocity(Vec3::zero()),
            stance: Stance::Run,
            animation: AnimationIndices { first: 0, last: 15 },
            frame: 0,
            hitbox: run_hitbox(),
            hitbox_offset: run_hitbox_offset(),
        }
    }

    /// The player after a key for jumping went down. From the ground the
    /// player leaps; in the air nothing changes.
    pub open spec fn jumped(self) -> Player {
        if self.translation.y <= GROUND_LEVEL {
            Player {
                translation: self.translation,
                velocity: Velocity(
                    Vec3 { x: self.velocity.0.x, y: JUMP_FORCE, z: self.velocity.0.z },
                ),
                stance: Stance::Jump,
                animation: AnimationIndices { first: 3, last: 11 },
                frame: 3,
                hitbox: jump_hitbox(),
                hitbox_offset: self.hitbox_offset,
            }
        } else {
            self
        }
    }

    /// The player after the key for ducking went down, where `pressed`, or
    /// up. Ducking shrinks the hitbox; letting go brings the player back to
    /// running.
    pub open spec fn crouched(self, pressed: bool) -> Player {
        if pressed {
            if self.stance == Stance::Dash {
                self
            } else {
                Player {
                    translation: self.translation,
                    velocity: self.velocity,
                    stance: Stance::Dash,
                    animation: self.animation,
                    frame: 0,
                    hitbox: dash_hitbox(),
                    hitbox_offset: dash_hitbox_offset(),
                }
            }
        } else {
            Player {
                translation: self.translation,
                velocity: self.velocity,
                stance: Stance::Run,
                animation: self.animation,
                frame: 0,
                hitbox: run_hitbox(),
                hitbox_offset: run_hitbox_offset(),
            }
        }
    }

    /// The player after `dt` milliseconds at its vertical speed. A player
    /// that would end at or below the ground is put on the ground and
    /// stops; if it was jumping, it runs again.
    pub open spec fn dropped(self, dt: u32) -> Player {
        let height = clamp_i64(self.translation.y + self.velocity.0.y * dt) as i64;
        if height <= GROUND_LEVEL {
            let landed = Vec3 { x: self.translation.x, y: GROUND_LEVEL, z: self.translation.z };
            let stopped = Velocity(Vec3 { x: self.velocity.0.x, y: 0, z: self.velocity.0.z });
            if self.stance == Stance::Jump {
                Player {
                    translation: landed,
                    velocity: stopped,
                    stance: Stance::Run,
                    animation: AnimationIndices { first: 0, last: 15 },
                    frame: 0,
                    hitbox: run_hitbox(),
                    hitbox_offset: self.hitbox_offset,
                }
            } else {
                Player {
                    translation: landed,
                    velocity: stopped,
                    stance: self.stance,
                    animation: self.animation,
                    frame: self.frame,
                    hitbox: self.hitbox,
                    hitbox_offset: self.hitbox_offset,
                }
            }
        } else {
            Player {
                translation: Vec3 { x: self.translation.x, y: height, z: self.translation.z },
                velocity: self.velocity,
                stance: self.stance,
                animation: self.animation,
                frame: self.frame,
                hitbox: self.hitbox,
                hitbox_offset: self.hitbox_offset,
            }
        }
    }

    /// The player once its health is known: with none left, a player that is
    /// not dying yet starts to die.
    pub open spec fn checked(self, health: Health) -> Player {
        if health.0 == 0 && self.stance != Stance::Die {
            Player {
                translation: self.translation,
                velocity: self.velocity,
                stance: Stance::Die,
                animation: AnimationIndices { first: 0, last: 7 },
                frame: 0,
                hitbox: self.hitbox,
                hitbox_offset: self.hitbox_offset,
            }
        } else {
            self
        }
    }

    /// The player's hitbox in the world, with the given health.
    pub open spec fn hitbox_in_world(self, health: Health) -> PlayerCollider {
        PlayerCollider {
            position: self.translation.plus(self.hitbox_offset),
            collider: self.hitbox,
            health,
        }
    }

    /// The player as the game starts.
    pub fn new() -> (player: Player)
        ensures
            player == Player::start(),
    {
        Player {
            translation: Vec3 { x: PLAYER_X, y: GROUND_LEVEL, z: 1000 },
            velocity: Velocity(Vec3 { x: 0, y: 0, z: 0 }),
            stance: Stance::Run,
            animation: AnimationIndices { first: 0, last: 15 },
            frame: 0,
            hitbox: Collider {
                size: Vec2 { x: DINO_SIZE_X * HIT_BOX_SCALE_X / 1000, y: DINO_RUN_SIZE_Y },
            },
            hitbox_offset: Vec3 {
                x: DINO_SIZE_X * (1000 - HIT_BOX_SCALE_X) / 1000 / 2,
                y: DINO_RUN_SIZE_Y / 2,
                z: 0,
            },
        }
    }

    /// The player's hitbox in the world, with the given health.
    pub fn collider(&self, health: Health) -> (hitbox: PlayerCollider)
        ensures
            hitbox == self.hitbox_in_world(health),
    {
        PlayerCollider {
            position: self.translation.add_saturating(self.hitbox_offset),
            collider: self.hitbox,
            health,
        }
    }
}

/// Answers a key for jumping that went down.
pub fn jump(player: &mut Player)
    ensures
        *final(player) == old(player).jumped(),
{
    if player.translation.y <= GROUND_LEVEL {
        player.velocity = Velocity(
            Vec3 { x: player.velocity.0.x, y: JUMP_FORCE, z: player.velocity.0.z },
        );
        player.stance = Stance::Jump;
        player.animation = AnimationIndices { first: 3, last: 11 };
        player.frame = 3;
        player.hitbox = Collider {
            size: Vec2 {
                x: DINO_SIZE_X * HIT_BOX_SCALE_X / 1000,
                y: DINO_JUMP_SIZE_Y * HIT_BOX_SCALE_Y / 1000,
            },
        };
    }
}

/// Answers the key for ducking: it went down where `pressed`, up otherwise.
pub fn crouch(player: &mut Player, pressed: bool)
    ensures
        *final(player) == old(player).crouched(pressed),
{
    if pressed {
        let ducking: bool = match player.stance {
            Stance::Dash => true,
            _ => false,
        };
        if !ducking {
            player.stance = Stance::Dash;
            player.frame = 0;
            player.hitbox = Collider {
                size: Vec2 {
                    x: DINO_SIZE_X * HIT_BOX_SCALE_X / 1000,
                    y: DINO_DASH_SIZE_Y * HIT_BOX_SCALE_Y / 1000,
                },
            };
            player.hitbox_offset = Vec3 {
                x: DINO_SIZE_X * (1000 - HIT_BOX_SCALE_X) / 1000 / 2,
                y: DINO_DASH_SIZE_Y * HIT_BOX_SCALE_Y / 1000 / 2,
                z: 0,
            };
        }
    } else {
        player.stance = Stance::Run;
        player.frame = 0;
        player.hitbox = Collider {
            size: Vec2 { x: DINO_SIZE_X * HIT_BOX_SCALE_X / 1000, y: DINO_RUN_SIZE_Y },
        };
        player.hitbox_offset = Vec3 {
            x: DINO_SIZE_X * (1000 - HIT_BOX_SCALE_X) / 1000 / 2,
            y: DINO_RUN_SIZE_Y / 2,
            z: 0,
        };
    }
}

/// Moves the player for `dt` milliseconds at its vertical speed and lands it
/// where it reaches the ground.
pub fn drop_player(player: &mut Player, dt: u32)
    ensures
        *final(player) == old(player).dropped(dt),
{
    let height: i64 = mul_add_saturating(player.translation.y, player.velocity.0.y, dt as i64);
    if height <= GROUND_LEVEL {
        player.translation = Vec3 {
            x: player.translation.x,
            y: GROUND_LEVEL,
            z: player.translation.z,
        };
        player.velocity = Velocity(Vec3 { x: player.velocity.0.x, y: 0, z: player.velocity.0.z });
        let jumping: bool = match player.stance {
            Stance::Jump => true,
            _ => false,
        };
        if jumping {
            player.stance = Stance::Run;
            player.animation = AnimationIndices { first: 0, last: 15 };
            player.frame = 0;
            player.hitbox = Collider {
                size: Vec2 { x: DINO_SIZE_X * HIT_BOX_SCALE_X / 1000, y: DINO_RUN_SIZE_Y },
            };
        }
    } else {
        player.translation = Vec3 { x: player.translation.x, y: height, z: player.translation.z };
    }
}

/// Shows the next frame of the player's animation.
pub fn animate_sprite(player: &mut Player)
    ensures
        *final(player) == (Player {
            frame: old(player).animation.following(old(player).frame),
            ..*old(player)
        }),
{
    player.frame = player.animation.next(player.frame);
}

/// Looks at the player's health. With none left the game is over, and a
/// player that is not dying yet starts to die.
pub fn check_health(player: &mut Player, health: &Health) -> (state: GameState)
    ensures
        *final(player) == old(player).checked(*health),
        state == if health.0 == 0 {
            GameState::GameOver
        } else {
            GameState::InGame
        },
{
    if health.0 == 0 {
        let dying: bool = match player.stance {
            Stance::Die => true,
            _ => false,
        };
        if !dying {
            player.stance = Stance::Die;
            player.animation = AnimationIndices { first: 0, last: 7 };
            player.frame = 0;
        }
        GameState::GameOver
    } else {
        GameState::InGame
    }
}

/// Speed of the game's clock as the game starts, in thousandths of real
/// time.
pub const INITIAL_REL_TIME: u32 = 1000;

/// Greatest speed of the game's clock.
pub const MAX_REL_TIME: u32 = 3000;

/// What the clock gains each time it is sped up.
pub const REL_TIME_INCR: u32 = 20;

/// The speed of the game's clock after it was sped up once: a little
/// faster, up to the greatest speed.
pub fn change_time_speed(relative_speed: u32) -> (faster: u32)
    ensures
        faster == if relative_speed + REL_TIME_INCR <= MAX_REL_TIME {
            relative_speed + REL_TIME_INCR
        } else {
            MAX_REL_TIME as int
        },
{
    if relative_speed <= MAX_REL_TIME - REL_TIME_INCR {
        relative_speed + REL_TIME_INCR
    } else {
        MAX_REL_TIME
    }
}

} // verus!
