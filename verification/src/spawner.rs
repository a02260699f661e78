//! What enters the scene when the spawn timer fires: a cactus on the
//! ground, or a pterodactyl or a pickup in the sky.
use vstd::prelude::*;
use bevy_prng::WyRand;
use crate::cactus::{build_cactus, cactus_nodes, draw_cactus, CactusDraws, CactusParams};
use crate::components::{
    AnimationIndices, Collider, HealthPickup, Pterodactyl, PterodactylCollider, Reaction,
};
use crate::math::{add_saturating, clamp_i64, Vec2, Vec3};
use crate::movement::{GROUND_EDGE, GROUND_LEVEL};
use crate::rng::{gen_range_inclusive, next_u32};
use crate::scene::{Node, Part, Scene, Shape};

verus! {

/// Of a hundred spawns, this many are in the sky.
pub const SKY_SPAWN_CHANCE_PERCENT: u32 = 30;

/// Of a hundred spawns, this many are pterodactyls; the rest of those in
/// the sky are pickups.
pub const PTERODACTYL_CHANCE_PERCENT: u32 = 15;

/// Size of a pterodactyl and of its hitbox.
pub const PTERO_SIZE_X: i64 = 100_000;

pub const PTERO_SIZE_Y: i64 = 112_529;

/// Size of a pickup and of its hitbox.
pub const HEALTH_PICKUP_SIZE_X: i64 = 40_000;

pub const HEALTH_PICKUP_SIZE_Y: i64 = 33_602;

/// Last frame of the animation of a flying pterodactyl.
pub const PTERODACTYL_FLY_LAST_FRAME: usize = 11;

/// How far beyond the right end of the ground an obstacle enters at least.
pub const SPAWN_LEAD: i64 = 50_000;

/// Width of the stretch over which the places of entry are spread, in whole
/// units.
pub const SPAWN_SPREAD: u32 = 300;

/// Lowest height at which a flying thing enters.
pub const MIN_SKY_HEIGHT: i32 = -230_000;

/// Highest height at which a flying thing enters.
pub const MAX_SKY_HEIGHT: i32 = 329_999;

/// The kinds of things that enter the scene.
#[derive(Clone, Copy, Debug, PartialEq, Eq, Structural)]
pub enum SpawnKind {
    Pterodactyl,
    HealthPickup,
    Cactus,
}

/// The kind that a raw draw picks: by its remainder on division by a
/// hundred, a pterodactyl below fifteen, a pickup below thirty, otherwise a
/// cactus.
pub open spec fn kind_of(kind_roll: u32) -> SpawnKind {
    if kind_roll % 100 < PTERODACTYL_CHANCE_PERCENT {
        SpawnKind::Pterodactyl
    } else if kind_roll % 100 < SKY_SPAWN_CHANCE_PERCENT {
        SpawnKind::HealthPickup
    } else {
        SpawnKind::Cactus
    }
}

/// The kind that a raw draw picks.
pub fn spawn_kind(kind_roll: u32) -> (kind: SpawnKind)
    ensures
        kind == kind_of(kind_roll),
{
    let rand_n: u32 = kind_roll % 100;
    if rand_n < PTERODACTYL_CHANCE_PERCENT {
        SpawnKind::Pterodactyl
    } else if rand_n < SKY_SPAWN_CHANCE_PERCENT {
        SpawnKind::HealthPickup
    } else {
        SpawnKind::Cactus
    }
}

/// Where an obstacle enters: beyond the right end of the ground as the
/// camera sees it, up to three hundred units farther as the raw draw says.
pub open spec fn entry_x(camera_x: i64, x_roll: u32) -> i64 {
    clamp_i64(camera_x + GROUND_EDGE + SPAWN_LEAD + (x_roll % SPAWN_SPREAD) * 1000) as i64
}

/// Where an obstacle enters, for a camera at `camera_x`.
pub fn spawn_x(camera_x: i64, x_roll: u32) -> (x: i64)
    ensures
        x == entry_x(camera_x, x_roll),
{
    let spread: i64 = ((x_roll % SPAWN_SPREAD) as i64) * 1000;
    add_saturating(camera_x, GROUND_EDGE + SPAWN_LEAD + spread)
}

/// What is drawn after the place and the kind: a height for what flies, the
/// shape of the cactus for a cactus.
#[derive(Clone, Copy, Debug, PartialEq, Eq, Structural)]
pub enum ObstacleDraws {
    Sky { height: i32 },
    Ground { cactus: CactusDraws },
}

/// The draws of one spawn, in the order they are made: the place, the kind,
/// then what the kind asks for.
#[derive(Clone, Copy, Debug, PartialEq, Eq, Structural)]
pub struct SpawnDraws {
    pub x_roll: u32,
    pub kind_roll: u32,
    pub rest: ObstacleDraws,
}

impl SpawnDraws {
    /// The draws after the kind are those that the kind asks for, each in
    /// its range.
    pub open spec fn within(self, params: CactusParams) -> bool {
        match self.rest {
            ObstacleDraws::Sky { height } => kind_of(self.kind_roll) != SpawnKind::Cactus
                && MIN_SKY_HEIGHT <= height <= MAX_SKY_HEIGHT,
            ObstacleDraws::Ground { cactus } => kind_of(self.kind_roll) == SpawnKind::Cactus
                && cactus.within(params),
        }
    }

    /// Whether the draws after the kind are those that the kind asks for,
    /// each in its range.
    pub fn is_within(&self, params: &CactusParams) -> (b: bool)
        ensures
            b == self.within(*params),
    {
        let kind = spawn_kind(self.kind_roll);
        let ground: bool = match kind {
            SpawnKind::Cactus => true,
            _ => false,
        };
        match self.rest {
            ObstacleDraws::Sky { height } => !ground && MIN_SKY_HEIGHT <= height && height
                <= MAX_SKY_HEIGHT,
            ObstacleDraws::Ground { cactus } => ground && cactus.is_within(params),
        }
    }
}

/// A flying pterodactyl at `position`, with its hitbox in the next slot.
pub open spec fn pterodactyl_nodes(position: Vec2, base: int) -> Seq<Option<Node>> {
    seq![
        Some(
            Node {
                parent: None,
                translation: Vec3 { x: position.x, y: position.y, z: 0 },
                rotation: 0,
                shape: Shape::Rectangle { width: PTERO_SIZE_X, height: PTERO_SIZE_Y },
                part: Part::Pterodactyl(
                    Pterodactyl {
                        reaction: Reaction::resting(),
                        animation: AnimationIndices { first: 0, last: PTERODACTYL_FLY_LAST_FRAME },
                    },
                ),
            },
        ),
        Some(
            Node {
                parent: Some(base as usize),
                translation: Vec3 { x: 0, y: 0, z: 0 },
                rotation: 0,
                shape: Shape::Empty,
                part: Part::PterodactylCollider(
                    PterodactylCollider(
                        Collider { size: Vec2 { x: PTERO_SIZE_X, y: PTERO_SIZE_Y } },
                    ),
                ),
            },
        ),
    ]
}

/// A pickup at `position`. It is its own hitbox.
pub open spec fn pickup_nodes(position: Vec2) -> Seq<Option<Node>> {
    seq![
        Some(
            Node {
                parent: None,
                translation: Vec3 { x: position.x, y: position.y, z: 0 },
                rotation: 0,
                shape: Shape::Rectangle {
                    width: HEALTH_PICKUP_SIZE_X,
                    height: HEALTH_PICKUP_SIZE_Y,
                },
                part: Part::HealthPickup(
                    HealthPickup(
                        Collider {
                            size: Vec2 { x: HEALTH_PICKUP_SIZE_X, y: HEALTH_PICKUP_SIZE_Y },
                        },
                    ),
                ),
            },
        ),
    ]
}

/// The nodes of the obstacle that the draws describe, for a root in slot
/// `base` and a camera at `camera_x`. A cactus stands on the ground.
pub open spec fn obstacle_nodes(
    params: CactusParams,
    camera_x: i64,
    draws: SpawnDraws,
    base: int,
) -> Seq<Option<Node>> {
    let x = entry_x(camera_x, draws.x_roll);
    match draws.rest {
        ObstacleDraws::Sky { height } => if kind_of(draws.kind_roll) == SpawnKind::Pterodactyl {
            pterodactyl_nodes(Vec2 { x, y: height as i64 }, base)
        } else {
            pickup_nodes(Vec2 { x, y: height as i64 })
        },
        ObstacleDraws::Ground { cactus } => cactus_nodes(
            params,
            cactus,
            Vec2 { x, y: GROUND_LEVEL },
            base,
        ),
    }
}

/// Adds a flying pterodactyl and its hitbox to the scene; returns the slot
/// of the pterodactyl.
pub fn build_pterodactyl(scene: &mut Scene, position: Vec2) -> (root: usize)
    requires
        old(scene).wf(),
    ensures
        final(scene).wf(),
        root == old(scene)@.len(),
        final(scene)@ == old(scene)@ + pterodactyl_nodes(position, old(scene)@.len() as int),
{
    let slot = scene.spawn(
        Node {
            parent: None,
            translation: Vec3 { x: position.x, y: position.y, z: 0 },
            rotation: 0,
            shape: Shape::Rectangle { width: PTERO_SIZE_X, height: PTERO_SIZE_Y },
            part: Part::Pterodactyl(
                Pterodactyl {
                    reaction: Reaction::new(),
                    animation: AnimationIndices { first: 0, last: PTERODACTYL_FLY_LAST_FRAME },
                },
            ),
        },
    );
    let root: usize = slot.unwrap();
    let collider_slot = scene.spawn(
        Node {
            parent: Some(root),
            translation: Vec3 { x: 0, y: 0, z: 0 },
            rotation: 0,
            shape: Shape::Empty,
            part: Part::PterodactylCollider(
                PterodactylCollider(Collider { size: Vec2 { x: PTERO_SIZE_X, y: PTERO_SIZE_Y } }),
            ),
        },
    );
    proof {
        assert(scene@ =~= old(scene)@ + pterodactyl_nodes(position, old(scene)@.len() as int));
    }
    root
}

/// Adds a pickup to the scene; returns its slot.
pub fn build_pickup(scene: &mut Scene, position: Vec2) -> (root: usize)
    requires
        old(scene).wf(),
    ensures
        final(scene).wf(),
        root == old(scene)@.len(),
        final(scene)@ == old(scene)@ + pickup_nodes(position),
{
    let slot = scene.spawn(
        Node {
            parent: None,
            translation: Vec3 { x: position.x, y: position.y, z: 0 },
            rotation: 0,
            shape: Shape::Rectangle { width: HEALTH_PICKUP_SIZE_X, height: HEALTH_PICKUP_SIZE_Y },
            part: Part::HealthPickup(
                HealthPickup(
                    Collider { size: Vec2 { x: HEALTH_PICKUP_SIZE_X, y: HEALTH_PICKUP_SIZE_Y } },
                ),
            ),
        },
    );
    proof {
        assert(scene@ =~= old(scene)@ + pickup_nodes(position));
    }
    slot.unwrap()
}

/// Adds to the scene the obstacle that the draws describe; returns the slot
/// of its root. The nodes that were in the scene stay as they were.
pub fn build_obstacle(
    scene: &mut Scene,
    params: &CactusParams,
    camera_x: i64,
    draws: &SpawnDraws,
) -> (root: usize)
    requires
        old(scene).wf(),
        params.valid(),
        draws.within(*params),
    ensures
        final(scene).wf(),
        root == old(scene)@.len(),
        final(scene)@ == old(scene)@ + obstacle_nodes(
            *params,
            camera_x,
            *draws,
            old(scene)@.len() as int,
        ),
{
    let x: i64 = spawn_x(camera_x, draws.x_roll);
    match draws.rest {
        ObstacleDraws::Sky { height } => {
            let position = Vec2 { x, y: height as i64 };
            match spawn_kind(draws.kind_roll) {
                SpawnKind::Pterodactyl => build_pterodactyl(scene, position),
                _ => build_pickup(scene, position),
            }
        },
        ObstacleDraws::Ground { cactus } => build_cactus(
            scene,
            params,
            Vec2 { x, y: GROUND_LEVEL },
            &cactus,
        ),
    }
}

/// Makes the draws of one spawn, in their fixed order: the place, the kind,
/// then the height of a flying thing or the draws of a cactus.
pub fn draw_obstacle(params: &CactusParams, rng: &mut WyRand) -> (draws: SpawnDraws)
    requires
        params.valid(),
    ensures
        draws.within(*params),
{
    let x_roll: u32 = next_u32(rng);
    let kind_roll: u32 = next_u32(rng);
    let rest = match spawn_kind(kind_roll) {
        SpawnKind::Cactus => ObstacleDraws::Ground { cactus: draw_cactus(params, rng) },
        _ => ObstacleDraws::Sky {
            height: gen_range_inclusive(rng, MIN_SKY_HEIGHT, MAX_SKY_HEIGHT),
        },
    };
    SpawnDraws { x_roll, kind_roll, rest }
}

/// Lets one obstacle enter the scene, as the random source decides, for a
/// camera at `camera_x`; returns the slot of its root.
///
/// The obstacle is the one that `build_obstacle` builds from the draws that
/// `draw_obstacle` makes.
pub fn spawn_obstacles(
    scene: &mut Scene,
    params: &CactusParams,
    camera_x: i64,
    rng: &mut WyRand,
) -> (root: usize)
    requires
        old(scene).wf(),
        params.valid(),
    ensures
        final(scene).wf(),
        root == old(scene)@.len(),
        exists|draws: SpawnDraws|
            draws.within(*params) && final(scene)@ == old(scene)@ + #[trigger] obstacle_nodes(
                *params,
                camera_x,
                draws,
                old(scene)@.len() as int,
            ),
{
    let draws = draw_obstacle(params, rng);
    build_obstacle(scene, params, camera_x, &draws)
}

} // verus!
