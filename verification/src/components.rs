//! The plain data carried by the parts of the game.
use vstd::prelude::*;
use crate::math::{Vec2, Vec3};

verus! {

/// Health the player starts with.
pub const INITIAL_HEALTH: usize = 1;

/// The player's health counter. It never drops below zero and stops
/// growing at `usize::MAX`.
#[derive(Clone, Copy, Debug, PartialEq, Eq, Structural)]
pub struct Health(pub usize);

impl Health {
    /// Health after one hit.
    pub open spec fn damaged(self) -> Health {
        if self.0 == 0 {
            self
        } else {
            Health((self.0 - 1) as usize)
        }
    }

    /// Health after one pickup.
    pub open spec fn healed(self) -> Health {
        if self.0 == usize::MAX {
            self
        } else {
            Health((self.0 + 1) as usize)
        }
    }

    /// Health after `n` hits in a row.
    pub open spec fn damaged_times(self, n: nat) -> Health
        decreases n,
    {
        if n == 0 {
            self
        } else {
            self.damaged_times((n - 1) as nat).damaged()
        }
    }

    /// Health after `n` pickups in a row.
    pub open spec fn healed_times(self, n: nat) -> Health
        decreases n,
    {
        if n == 0 {
            self
        } else {
            self.healed_times((n - 1) as nat).healed()
        }
    }

    /// Takes one point away, stopping at zero.
    pub fn damage(&mut self)
        ensures
            *final(self) == old(self).damaged(),
    {
        if self.0 > 0 {
            self.0 = self.0 - 1;
        }
    }

    /// Adds one point, stopping at `usize::MAX`.
    pub fn heal(&mut self)
        ensures
            *final(self) == old(self).healed(),
    {
        if self.0 < usize::MAX {
            self.0 = self.0 + 1;
        }
    }

    /// Repeated hits take one point each until none is left, and no more.
    pub proof fn lemma_damage_saturates(self, n: nat)
        ensures
            self.damaged_times(n).0 == if n <= self.0 { self.0 - n } else { 0 },
            self.damaged_times(n).0 >= 0,
        decreases n,
    {
        if n > 0 {
            self.lemma_damage_saturates((n - 1) as nat);
        }
    }

    /// Repeated pickups add one point each until `usize::MAX` is reached,
    /// and no more.
    pub proof fn lemma_heal_saturates(self, n: nat)
        ensures
            self.healed_times(n).0 == if self.0 + n <= usize::MAX { self.0 + n } else { usize::MAX as int },
        decreases n,
    {
        if n > 0 {
            self.lemma_heal_saturates((n - 1) as nat);
        }
    }
}

/// Whether the game is running or over.
#[derive(Clone, Copy, Debug, PartialEq, Eq, Hash, Structural)]
pub enum GameState {
    InGame,
    GameOver,
}

/// Whether a part has been struck and is falling.
#[derive(Clone, Copy, Debug, PartialEq, Eq, Structural)]
pub struct IsHit(pub bool);

/// Speed along each axis.
#[derive(Clone, Copy, Debug, PartialEq, Eq, Structural)]
pub struct Velocity(pub Vec3);

/// An axis-aligned box around its owner's position; `size` is the full
/// width and height.
#[derive(Clone, Copy, Debug, PartialEq, Eq, Structural)]
pub struct Collider {
    pub size: Vec2,
}

impl Collider {
    /// Half of the size, each component rounded toward zero.
    pub open spec fn half(self) -> Vec2 {
        Vec2 { x: half_of(self.size.x as int) as i64, y: half_of(self.size.y as int) as i64 }
    }

    /// Half of the size, each component rounded toward zero.
    pub fn half_size(&self) -> (h: Vec2)
        ensures
            h == self.half(),
    {
        Vec2 { x: self.size.x / 2, y: self.size.y / 2 }
    }
}

/// Half of `x`, rounded toward zero.
pub open spec fn half_of(x: int) -> int {
    if x >= 0 {
        x / 2
    } else {
        -((-x) / 2)
    }
}

/// The first and last frame of the animation that is playing.
#[derive(Clone, Copy, Debug, PartialEq, Eq, Structural)]
pub struct AnimationIndices {
    pub first: usize,
    pub last: usize,
}

impl AnimationIndices {
    /// The frame shown after `index`.
    pub open spec fn following(self, index: usize) -> usize {
        if index >= self.last {
            self.first
        } else {
            (index + 1) as usize
        }
    }

    /// The frame shown after `index`: the next one, or the first again once
    /// the last has been reached.
    pub fn next(&self, index: usize) -> (r: usize)
        ensures
            r == self.following(index),
    {
        if index >= self.last {
            self.first
        } else {
            index + 1
        }
    }
}

/// Angular speed of a falling part: about eight radians per second.
pub const ANGULAR_SPEED: i64 = 458;

/// The fall of an obstacle part: at rest until struck, falling afterwards.
#[derive(Clone, Copy, Debug, PartialEq, Eq, Structural)]
pub struct Reaction {
    pub is_hit: IsHit,
    pub velocity: Velocity,
    /// Signed turning speed; its sign flips on every tick of the fall.
    pub angular_velocity: i64,
}

impl Reaction {
    /// A part at rest: not hit, not moving.
    pub open spec fn resting() -> Reaction {
        Reaction {
            is_hit: IsHit(false),
            velocity: Velocity(Vec3::zero()),
            angular_velocity: ANGULAR_SPEED,
        }
    }

    /// The state right after the part was struck: falling, with no vertical
    /// speed yet.
    pub open spec fn struck(self) -> Reaction {
        Reaction {
            is_hit: IsHit(true),
            velocity: Velocity(Vec3 { x: self.velocity.0.x, y: 0, z: self.velocity.0.z }),
            angular_velocity: self.angular_velocity,
        }
    }

    /// A part at rest.
    pub fn new() -> (r: Reaction)
        ensures
            r == Reaction::resting(),
    {
        Reaction {
            is_hit: IsHit(false),
            velocity: Velocity(Vec3 { x: 0, y: 0, z: 0 }),
            angular_velocity: ANGULAR_SPEED,
        }
    }

    /// Marks the part as struck and clears its vertical speed.
    pub fn strike(&mut self)
        ensures
            *final(self) == old(self).struck(),
    {
        self.is_hit = IsHit(true);
        self.velocity = Velocity(Vec3 { x: self.velocity.0.x, y: 0, z: self.velocity.0.z });
    }
}

/// The root of a cactus, with the sizes its parts were laid out from.
#[derive(Clone, Copy, Debug, PartialEq, Eq, Structural)]
pub struct CactusRoot {
    pub trunk_width: i64,
    pub trunk_height: i64,
    pub arm_width: i64,
    pub arm_length: i64,
    pub flower: bool,
}

/// One arm of a cactus.
#[derive(Clone, Copy, Debug, PartialEq, Eq, Structural)]
pub struct CactusArm {
    /// `1` for the arm on the right of the trunk, `-1` for the one on the left.
    pub side: i64,
    /// Height above the foot of the trunk at which the arm branches off.
    pub height: i64,
    /// Length of the upright end of the arm.
    pub caps_length: i64,
    pub reaction: Reaction,
}

/// The single hitbox of a cactus.
#[derive(Clone, Copy, Debug, PartialEq, Eq, Structural)]
pub struct CactusCollider(pub Collider);

/// A pickup that gives one point of health.
#[derive(Clone, Copy, Debug, PartialEq, Eq, Structural)]
pub struct HealthPickup(pub Collider);

/// Frame on which the animation of a defeated pterodactyl ends.
pub const PTERODACTYL_DIE_LAST_FRAME: usize = 3;

/// A flying hazard.
#[derive(Clone, Copy, Debug, PartialEq, Eq, Structural)]
pub struct Pterodactyl {
    pub reaction: Reaction,
    pub animation: AnimationIndices,
}

impl Pterodactyl {
    /// The pterodactyl after it struck the player: falling, and playing the
    /// animation of its defeat.
    pub open spec fn defeated(self) -> Pterodactyl {
        Pterodactyl {
            reaction: self.reaction.struck(),
            animation: AnimationIndices {
                first: self.animation.first,
                last: PTERODACTYL_DIE_LAST_FRAME,
            },
        }
    }
}

/// The hitbox of a pterodactyl, a child of it.
#[derive(Clone, Copy, Debug, PartialEq, Eq, Structural)]
pub struct PterodactylCollider(pub Collider);

/// The player's hitbox: where it is in the world, how large it is, and the
/// health that collisions change.
#[derive(Clone, Copy, Debug, PartialEq, Eq, Structural)]
pub struct PlayerCollider {
    pub position: Vec3,
    pub collider: Collider,
    pub health: Health,
}

} // verus!
