//! How obstacles move: the fall of struck parts, and the scrolling of the
//! obstacles toward the player.
use vstd::prelude::*;
use crate::components::{CactusArm, Pterodactyl, Reaction, Velocity};
use crate::math::{clamp_i64, mul_add_saturating, sub_saturating, Vec3};
use crate::scene::{fits, swept, well_formed, world_translation, Node, Part, Scene};

verus! {

/// Height of the ground.
pub const GROUND_LEVEL: i64 = -330_000;

/// Change of vertical speed per millisecond.
pub const GRAVITY: i64 = -4;

/// Speed at which the ground and what stands on it come toward the player.
pub const GAME_SPEED: i64 = 500;

/// Speed of what flies, on top of the speed of the ground.
pub const FLY_SPEED: i64 = 100;

/// Distance from the middle of the ground to either end of it. What passes
/// the left end is removed.
pub const GROUND_EDGE: i64 = 700_000;

/// Drawing layer of a part that falls.
pub const HIT_LAYER: i64 = -100;

/// The vertical speed after `dt` milliseconds of `gravity`.
pub open spec fn pulled(velocity: Velocity, gravity: i64, dt: u32) -> Velocity {
    Velocity(
        Vec3 {
            x: velocity.0.x,
            y: clamp_i64(velocity.0.y + gravity * dt) as i64,
            z: velocity.0.z,
        },
    )
}

/// Lets `gravity` act on a velocity for `dt` milliseconds. The speed stops
/// at the ends of the range of `i64`.
pub fn apply_gravity(velocity: &mut Velocity, gravity: i64, dt: u32)
    ensures
        *final(velocity) == pulled(*old(velocity), gravity, dt),
{
    let y: i64 = mul_add_saturating(velocity.0.y, gravity, dt as i64);
    *velocity = Velocity(Vec3 { x: velocity.0.x, y, z: velocity.0.z });
}

/// What a tick moves of a part: where it is and how it is turned, both
/// relative to its parent, and its fall.
#[derive(Clone, Copy, Debug, PartialEq, Eq, Structural)]
pub struct Body {
    pub translation: Vec3,
    pub rotation: i64,
    pub reaction: Reaction,
}

impl Body {
    /// The body one tick of `dt` milliseconds later, over a floor at height
    /// `floor` in the frame of the body's parent.
    ///
    /// A body that was not hit rests. One that was hit falls: gravity
    /// changes its speed, the speed its height, and it turns by its angular
    /// speed, whose sign flips with every tick. Where the step would end at
    /// or below the floor, the body is put on the floor instead, its speed
    /// is cleared and the turn of this tick is left out.
    pub open spec fn ticked(self, gravity: i64, floor: i64, dt: u32) -> Body {
        if !self.reaction.is_hit.0 {
            self
        } else {
            let speed = pulled(self.reaction.velocity, gravity, dt).0.y;
            let height = clamp_i64(self.translation.y + speed * dt) as i64;
            let spin = clamp_i64(-self.reaction.angular_velocity) as i64;
            if height <= floor {
                Body {
                    translation: Vec3 { x: self.translation.x, y: floor, z: HIT_LAYER },
                    rotation: self.rotation,
                    reaction: Reaction {
                        is_hit: self.reaction.is_hit,
                        velocity: Velocity(
                            Vec3 {
                                x: self.reaction.velocity.0.x,
                                y: 0,
                                z: self.reaction.velocity.0.z,
                            },
                        ),
                        angular_velocity: spin,
                    },
                }
            } else {
                Body {
                    translation: Vec3 { x: self.translation.x, y: height, z: HIT_LAYER },
                    rotation: clamp_i64(self.rotation + spin * dt) as i64,
                    reaction: Reaction {
                        is_hit: self.reaction.is_hit,
                        velocity: Velocity(
                            Vec3 {
                                x: self.reaction.velocity.0.x,
                                y: speed,
                                z: self.reaction.velocity.0.z,
                            },
                        ),
                        angular_velocity: spin,
                    },
                }
            }
        }
    }

    /// The body after one tick for each entry of `dts`, in their order.
    pub open spec fn ticked_all(self, gravity: i64, floor: i64, dts: Seq<u32>) -> Body
        decreases dts.len(),
    {
        if dts.len() == 0 {
            self
        } else {
            self.ticked_all(gravity, floor, dts.drop_last()).ticked(gravity, floor, dts.last())
        }
    }

    /// The body lies on the floor and does not move.
    pub open spec fn at_rest_on(self, floor: i64) -> bool {
        self.reaction.is_hit.0 && self.translation.y == floor && self.reaction.velocity.0.y == 0
    }

    /// Advances the body by one tick of `dt` milliseconds.
    pub fn tick(&mut self, gravity: i64, floor: i64, dt: u32)
        ensures
            *final(self) == old(self).ticked(gravity, floor, dt),
    {
        if self.reaction.is_hit.0 {
            let mut velocity = self.reaction.velocity;
            apply_gravity(&mut velocity, gravity, dt);
            let height: i64 = mul_add_saturating(self.translation.y, velocity.0.y, dt as i64);
            let spin: i64 = sub_saturating(0, self.reaction.angular_velocity);
            if height <= floor {
                self.translation = Vec3 { x: self.translation.x, y: floor, z: HIT_LAYER };
                self.reaction = Reaction {
                    is_hit: self.reaction.is_hit,
                    velocity: Velocity(Vec3 { x: velocity.0.x, y: 0, z: velocity.0.z }),
                    angular_velocity: spin,
                };
            } else {
                self.translation = Vec3 { x: self.translation.x, y: height, z: HIT_LAYER };
                self.rotation = mul_add_saturating(self.rotation, spin, dt as i64);
                self.reaction = Reaction {
                    is_hit: self.reaction.is_hit,
                    velocity,
                    angular_velocity: spin,
                };
            }
        }
    }

    /// One tick of a falling body: it comes to rest on the floor, or it ends
    /// above the floor, lower than it was, and still falling.
    pub proof fn lemma_tick_falls(self, gravity: i64, floor: i64, dt: u32)
        requires
            self.reaction.is_hit.0,
            self.reaction.velocity.0.y <= 0,
            gravity < 0,
            dt > 0,
        ensures
            self.ticked(gravity, floor, dt).reaction.is_hit.0,
            self.ticked(gravity, floor, dt).at_rest_on(floor) || (floor < self.ticked(
                gravity,
                floor,
                dt,
            ).translation.y < self.translation.y && self.ticked(
                gravity,
                floor,
                dt,
            ).reaction.velocity.0.y < 0),
    {
        let speed = pulled(self.reaction.velocity, gravity, dt).0.y;
        assert(gravity * dt <= -1) by (nonlinear_arith)
            requires
                gravity <= -1,
                dt >= 1,
        ;
        assert(speed <= -1);
        assert(speed * dt <= -1) by (nonlinear_arith)
            requires
                speed <= -1,
                dt >= 1,
        ;
    }

    /// A body at rest on the floor stays at rest on it.
    pub proof fn lemma_rest_is_kept(self, gravity: i64, floor: i64, dt: u32)
        requires
            self.at_rest_on(floor),
            gravity < 0,
            dt > 0,
        ensures
            self.ticked(gravity, floor, dt).at_rest_on(floor),
    {
        self.lemma_tick_falls(gravity, floor, dt);
    }

    /// A struck body reaches the floor, and stays there.
    ///
    /// Under any gravity that pulls down, a body that was hit and is not
    /// moving upward is at rest on the floor after at least one tick and at
    /// least as many ticks as it was thousandths above the floor, however
    /// long each tick is; and with it after every longer run of ticks.
    pub proof fn lemma_fall_comes_to_rest(self, gravity: i64, floor: i64, dts: Seq<u32>)
        requires
            self.reaction.is_hit.0,
            self.reaction.velocity.0.y <= 0,
            gravity < 0,
            forall|k: int| 0 <= k < dts.len() ==> dts[k] > 0,
            dts.len() >= 1,
            dts.len() >= self.translation.y - floor,
        ensures
            self.ticked_all(gravity, floor, dts).at_rest_on(floor),
    {
        self.lemma_fall_progress(gravity, floor, dts);
    }

    /// After a run of ticks a falling body is at rest on the floor, or it is
    /// above the floor, at least one thousandth lower for each tick.
    proof fn lemma_fall_progress(self, gravity: i64, floor: i64, dts: Seq<u32>)
        requires
            self.reaction.is_hit.0,
            self.reaction.velocity.0.y <= 0,
            gravity < 0,
            forall|k: int| 0 <= k < dts.len() ==> dts[k] > 0,
        ensures
            self.ticked_all(gravity, floor, dts).reaction.is_hit.0,
            self.ticked_all(gravity, floor, dts).reaction.velocity.0.y <= 0,
            dts.len() == 0 || self.ticked_all(gravity, floor, dts).at_rest_on(floor) || floor
                < self.ticked_all(gravity, floor, dts).translation.y <= self.translation.y
                - dts.len(),
        decreases dts.len(),
    {
        if dts.len() > 0 {
            let earlier = dts.drop_last();
            self.lemma_fall_progress(gravity, floor, earlier);
            self.ticked_all(gravity, floor, earlier).lemma_tick_falls(gravity, floor, dts.last());
        }
    }
}

/// What a tick moves of a node, if the node is of a kind that can fall: an
/// arm of a cactus or a pterodactyl.
pub open spec fn body_of(node: Node) -> Option<Body> {
    match node.part {
        Part::CactusArm(arm) => Some(
            Body { translation: node.translation, rotation: node.rotation, reaction: arm.reaction },
        ),
        Part::Pterodactyl(pterodactyl) => Some(
            Body {
                translation: node.translation,
                rotation: node.rotation,
                reaction: pterodactyl.reaction,
            },
        ),
        _ => None,
    }
}

/// The node with what a tick moves of it replaced by `body`.
pub open spec fn with_body(node: Node, body: Body) -> Node {
    Node {
        parent: node.parent,
        translation: body.translation,
        rotation: body.rotation,
        shape: node.shape,
        part: match node.part {
            Part::CactusArm(arm) => Part::CactusArm(
                CactusArm {
                    side: arm.side,
                    height: arm.height,
                    caps_length: arm.caps_length,
                    reaction: body.reaction,
                },
            ),
            Part::Pterodactyl(pterodactyl) => Part::Pterodactyl(
                Pterodactyl { reaction: body.reaction, animation: pterodactyl.animation },
            ),
            other => other,
        },
    }
}

/// Height of the floor in the frame of the parent of node `j`, for a floor
/// at height `floor` in the world.
pub open spec fn local_floor(s: Seq<Option<Node>>, j: int, floor: i64) -> i64 {
    match s[j].unwrap().parent {
        Some(p) => clamp_i64(floor - world_translation(s, p as int).y) as i64,
        None => floor,
    }
}

/// Node `j` one tick later: a node that can fall has ticked, over the floor
/// as its parent sees it when the tick begins; any other is unchanged.
pub open spec fn dropped_node(
    s: Seq<Option<Node>>,
    j: int,
    gravity: i64,
    floor: i64,
    dt: u32,
) -> Option<Node> {
    match s[j] {
        Some(node) => match body_of(node) {
            Some(body) => Some(
                with_body(node, body.ticked(gravity, local_floor(s, j, floor), dt)),
            ),
            None => s[j],
        },
        None => None,
    }
}

/// The scene one tick later, as far as falling goes.
pub open spec fn dropped(s: Seq<Option<Node>>, gravity: i64, floor: i64, dt: u32) -> Seq<
    Option<Node>,
> {
    Seq::new(s.len(), |j: int| dropped_node(s, j, gravity, floor, dt))
}

/// Lets every struck arm and every struck pterodactyl of the scene fall for
/// one tick of `dt` milliseconds, toward a floor at height `floor` in the
/// world. Nothing else changes, and nothing is removed.
pub fn drop_obstacles(scene: &mut Scene, gravity: i64, floor: i64, dt: u32)
    requires
        old(scene).wf(),
    ensures
        final(scene).wf(),
        final(scene)@ == dropped(old(scene)@, gravity, floor, dt),
{
    let ghost s = scene@;
    let n: usize = scene.len();
    let world = scene.world_translations();
    let mut j: usize = 0;
    while j < n
        invariant
            j <= n,
            n == s.len(),
            scene@.len() == n,
            scene.wf(),
            well_formed(s),
            world@.len() == n,
            forall|k: int| 0 <= k < n ==> #[trigger] world@[k] == world_translation(s, k),
            forall|k: int| 0 <= k < j ==> scene@[k] == dropped_node(s, k, gravity, floor, dt),
            forall|k: int| j <= k < n ==> scene@[k] == s[k],
        decreases n - j,
    {
        match scene.get(j) {
            Some(node) => {
                assert(fits(s, j as int, s[j as int].unwrap()));
                let ground: i64 = match node.parent {
                    Some(p) => sub_saturating(floor, world[p].y),
                    None => floor,
                };
                match node.part {
                    Part::CactusArm(arm) => {
                        let mut body = Body {
                            translation: node.translation,
                            rotation: node.rotation,
                            reaction: arm.reaction,
                        };
                        body.tick(gravity, ground, dt);
                        scene.replace(
                            j,
                            Node {
                                parent: node.parent,
                                translation: body.translation,
                                rotation: body.rotation,
                                shape: node.shape,
                                part: Part::CactusArm(
                                    CactusArm {
                                        side: arm.side,
                                        height: arm.height,
                                        caps_length: arm.caps_length,
                                        reaction: body.reaction,
                                    },
                                ),
                            },
                        );
                    },
                    Part::Pterodactyl(pterodactyl) => {
                        let mut body = Body {
                            translation: node.translation,
                            rotation: node.rotation,
                            reaction: pterodactyl.reaction,
                        };
                        body.tick(gravity, ground, dt);
                        scene.replace(
                            j,
                            Node {
                                parent: node.parent,
                                translation: body.translation,
                                rotation: body.rotation,
                                shape: node.shape,
                                part: Part::Pterodactyl(
                                    Pterodactyl {
                                        reaction: body.reaction,
                                        animation: pterodactyl.animation,
                                    },
                                ),
                            },
                        );
                    },
                    _ => {},
                }
            },
            None => {},
        }
        j += 1;
    }
    proof {
        assert(scene@ =~= dropped(s, gravity, floor, dt));
    }
}

/// Whether the scrolling of the ground carries the node along: the root of
/// a cactus.
pub open spec fn on_ground(node: Node) -> bool {
    node.part is CactusRoot
}

/// Whether the node flies: a pickup or a pterodactyl.
pub open spec fn in_sky(node: Node) -> bool {
    node.part is HealthPickup || node.part is Pterodactyl
}

/// The node after it came `speed * dt` closer to the player.
pub open spec fn shifted(node: Node, speed: i64, dt: u32) -> Node {
    Node {
        parent: node.parent,
        translation: Vec3 {
            x: clamp_i64(node.translation.x - speed * dt) as i64,
            y: node.translation.y,
            z: node.translation.z,
        },
        rotation: node.rotation,
        shape: node.shape,
        part: node.part,
    }
}

/// The ground obstacles of the scene after `dt` milliseconds of scrolling at
/// `speed`, before any is removed.
pub open spec fn ground_scrolled(s: Seq<Option<Node>>, speed: i64, dt: u32) -> Seq<Option<Node>> {
    Seq::new(
        s.len(),
        |j: int|
            match s[j] {
                Some(node) => if on_ground(node) {
                    Some(shifted(node, speed, dt))
                } else {
                    s[j]
                },
                None => None,
            },
    )
}

/// The flying things of the scene after `dt` milliseconds of scrolling at
/// `speed`, before any is removed.
pub open spec fn sky_scrolled(s: Seq<Option<Node>>, speed: i64, dt: u32) -> Seq<Option<Node>> {
    Seq::new(
        s.len(),
        |j: int|
            match s[j] {
                Some(node) => if in_sky(node) {
                    Some(shifted(node, speed, dt))
                } else {
                    s[j]
                },
                None => None,
            },
    )
}

/// For every slot, whether it holds a ground obstacle that has passed the
/// left end of the ground.
pub open spec fn ground_gone(s: Seq<Option<Node>>) -> Seq<bool> {
    Seq::new(
        s.len(),
        |j: int|
            match s[j] {
                Some(node) => on_ground(node) && node.translation.x < -GROUND_EDGE,
                None => false,
            },
    )
}

/// For every slot, whether it holds a flying thing that has passed the left
/// end of the ground.
pub open spec fn sky_gone(s: Seq<Option<Node>>) -> Seq<bool> {
    Seq::new(
        s.len(),
        |j: int|
            match s[j] {
                Some(node) => in_sky(node) && node.translation.x < -GROUND_EDGE,
                None => false,
            },
    )
}

/// Moves every cactus `GAME_SPEED * dt` to the left, then removes, with all
/// its parts, each one that has passed the left end of the ground.
pub fn move_ground_obstacles(scene: &mut Scene, dt: u32)
    requires
        old(scene).wf(),
    ensures
        final(scene).wf(),
        final(scene)@ == swept(
            ground_scrolled(old(scene)@, GAME_SPEED, dt),
            ground_gone(ground_scrolled(old(scene)@, GAME_SPEED, dt)),
        ),
{
    let ghost s = scene@;
    let n: usize = scene.len();
    let mut gone: Vec<bool> = Vec::new();
    let mut j: usize = 0;
    while j < n
        invariant
            j <= n,
            n == s.len(),
            scene@.len() == n,
            scene.wf(),
            gone@.len() == j,
            forall|k: int| 0 <= k < j ==> scene@[k] == ground_scrolled(s, GAME_SPEED, dt)[k],
            forall|k: int| 0 <= k < j ==> gone@[k] == ground_gone(scene@)[k],
            forall|k: int| j <= k < n ==> scene@[k] == s[k],
        decreases n - j,
    {
        let ghost then = scene@;
        let mut leaves: bool = false;
        match scene.get(j) {
            Some(node) => {
                match node.part {
                    Part::CactusRoot(_) => {
                        let x: i64 = mul_add_saturating(node.translation.x, -GAME_SPEED, dt as i64);
                        leaves = x < -GROUND_EDGE;
                        scene.replace(
                            j,
                            Node {
                                parent: node.parent,
                                translation: Vec3 {
                                    x,
                                    y: node.translation.y,
                                    z: node.translation.z,
                                },
                                rotation: node.rotation,
                                shape: node.shape,
                                part: node.part,
                            },
                        );
                    },
                    _ => {},
                }
            },
            None => {},
        }
        gone.push(leaves);
        proof {
            assert forall|k: int| 0 <= k < j + 1 implies gone@[k] == ground_gone(scene@)[k] by {
                if k < j {
                    assert(scene@[k] == then[k]);
                    assert(gone@[k] == ground_gone(then)[k]);
                }
            }
        }
        j += 1;
    }
    proof {
        assert(scene@ =~= ground_scrolled(s, GAME_SPEED, dt));
        assert(gone@ =~= ground_gone(scene@));
    }
    scene.sweep(&gone);
}

/// Moves every pickup and every pterodactyl `(GAME_SPEED + FLY_SPEED) * dt`
/// to the left, then removes, with all its parts, each one that has passed
/// the left end of the ground.
pub fn move_sky_obstacles(scene: &mut Scene, dt: u32)
    requires
        old(scene).wf(),
    ensures
        final(scene).wf(),
        final(scene)@ == swept(
            sky_scrolled(old(scene)@, (GAME_SPEED + FLY_SPEED) as i64, dt),
            sky_gone(sky_scrolled(old(scene)@, (GAME_SPEED + FLY_SPEED) as i64, dt)),
        ),
{
    let ghost s = scene@;
    let speed: i64 = GAME_SPEED + FLY_SPEED;
    let n: usize = scene.len();
    let mut gone: Vec<bool> = Vec::new();
    let mut j: usize = 0;
    while j < n
        invariant
            j <= n,
            n == s.len(),
            scene@.len() == n,
            scene.wf(),
            speed == GAME_SPEED + FLY_SPEED,
            gone@.len() == j,
            forall|k: int| 0 <= k < j ==> scene@[k] == sky_scrolled(s, speed, dt)[k],
            forall|k: int| 0 <= k < j ==> gone@[k] == sky_gone(scene@)[k],
            forall|k: int| j <= k < n ==> scene@[k] == s[k],
        decreases n - j,
    {
        let ghost then = scene@;
        let mut leaves: bool = false;
        match scene.get(j) {
            Some(node) => {
                let flies: bool = match node.part {
                    Part::HealthPickup(_) => true,
                    Part::Pterodactyl(_) => true,
                    _ => false,
                };
                if flies {
                    let x: i64 = mul_add_saturating(node.translation.x, -speed, dt as i64);
                    assert((-speed) * dt == -(speed * dt)) by (nonlinear_arith);
                    leaves = x < -GROUND_EDGE;
                    scene.replace(
                        j,
                        Node {
                            parent: node.parent,
                            translation: Vec3 { x, y: node.translation.y, z: node.translation.z },
                            rotation: node.rotation,
                            shape: node.shape,
                            part: node.part,
                        },
                    );
                }
            },
            None => {},
        }
        gone.push(leaves);
        proof {
            assert forall|k: int| 0 <= k < j + 1 implies gone@[k] == sky_gone(scene@)[k] by {
                if k < j {
                    assert(scene@[k] == then[k]);
                    assert(gone@[k] == sky_gone(then)[k]);
                }
            }
        }
        j += 1;
    }
    proof {
        assert(scene@ =~= sky_scrolled(s, speed, dt));
        assert(gone@ =~= sky_gone(scene@));
    }
    scene.sweep(&gone);
}

} // verus!
