//! The cactus generator: a handful of random draws decide the sizes of a
//! cactus, and the sizes decide every node of it.
use vstd::prelude::*;
use bevy_prng::WyRand;
use crate::components::{CactusArm, CactusCollider, CactusRoot, Collider, Reaction};
use crate::math::{Vec2, Vec3};
use crate::rng::{gen_range_inclusive, next_u32};
use crate::scene::{alive, Node, Part, Scene, Shape};

verus! {

/// Half a turn, in thousandths of a degree.
pub const HALF_TURN: i64 = 180_000;

/// A full turn, in thousandths of a degree.
pub const FULL_TURN: i64 = 360_000;

/// Opening of the curved piece of an arm.
pub const SECTOR_ANGLE: i64 = 45_000;

/// Drawing layer of the cap on top of the trunk.
pub const CAP_LAYER: i64 = 100;

/// Drawing layer of the straight piece of an arm.
pub const SIDE_LAYER: i64 = 200;

/// Drawing layer of the curved piece of an arm.
pub const CURVE_LAYER: i64 = 300;

/// Drawing layer of the upright piece of an arm.
pub const CAPSULE_LAYER: i64 = 400;

/// Drawing layer of the spikes of a flower.
pub const SPIKE_LAYER: i64 = 500;

/// Drawing layer of the trunk. An arm lies this far below it, so that the
/// pieces of the arm keep their own layers.
pub const TRUNK_LAYER: i64 = 600;

/// The ranges and constants a cactus is generated from. Heights of the
/// trunk are whole units; every other length is in thousandths.
#[derive(Clone, Copy, Debug, PartialEq, Eq, Structural)]
pub struct CactusParams {
    /// Least height of the trunk, in whole units.
    pub min_trunk_height: i32,
    /// Greatest height of the trunk, in whole units.
    pub max_trunk_height: i32,
    pub min_trunk_width: i32,
    pub max_trunk_width: i32,
    /// Reach of an arm on the thinnest trunk.
    pub min_arm_width: i32,
    /// Reach of an arm on the thickest trunk.
    pub max_arm_width: i32,
    /// Least height at which an arm branches off.
    pub min_arm_highness: i32,
    /// How far below the top of the trunk the highest arm branches off.
    pub arm_top_margin: i32,
    /// Distance of an arm's origin from the axis of the trunk.
    pub arm_offset: i32,
    /// Chance of a cactus to flower, in percent.
    pub flower_chance_percent: u32,
    /// Number of spikes of one flower.
    pub spike_count: u32,
    pub spike_length: i32,
    pub spike_width: i32,
}

impl CactusParams {
    /// The ranges are not empty, no length is negative, the lowest trunk
    /// leaves room for an arm, and an arm reaches at least as far as its
    /// curve is wide on the thinnest and on the thickest trunk.
    pub open spec fn valid(self) -> bool {
        &&& 0 < self.min_trunk_height <= self.max_trunk_height
        &&& self.max_trunk_height * 1000 <= i32::MAX
        &&& 0 < self.min_trunk_width < self.max_trunk_width
        &&& 0 <= self.min_arm_width <= self.max_arm_width
        &&& self.min_trunk_width <= 2 * self.min_arm_width
        &&& self.max_trunk_width <= 2 * self.max_arm_width
        &&& 0 <= self.min_arm_highness
        &&& 0 <= self.arm_top_margin
        &&& self.min_arm_highness + self.arm_top_margin <= self.min_trunk_height * 1000
        &&& 0 <= self.arm_offset
        &&& self.flower_chance_percent <= 100
        &&& 0 <= self.spike_length
        &&& 0 <= self.spike_width
    }

    /// The cactus of the game: a trunk 58 to 157 units high and 23 to 30
    /// wide, arms that reach 15 to 30, and three spikes on three flowers
    /// for three cacti in ten.
    pub open spec fn standard() -> CactusParams {
        CactusParams {
            min_trunk_height: 58,
            max_trunk_height: 157,
            min_trunk_width: 23_000,
            max_trunk_width: 30_000,
            min_arm_width: 15_000,
            max_arm_width: 30_000,
            min_arm_highness: 20_000,
            arm_top_margin: 10_000,
            arm_offset: 10_000,
            flower_chance_percent: 30,
            spike_count: 3,
            spike_length: 8_000,
            spike_width: 1_500,
        }
    }

    /// Whether the parameters are valid.
    pub fn is_valid(&self) -> (b: bool)
        ensures
            b == self.valid(),
    {
        let trunk: bool = 0 < self.min_trunk_height && self.min_trunk_height
            <= self.max_trunk_height && self.max_trunk_height <= i32::MAX / 1000 && 0
            < self.min_trunk_width && self.min_trunk_width < self.max_trunk_width;
        let arms: bool = 0 <= self.min_arm_width && self.min_arm_width <= self.max_arm_width
            && self.min_trunk_width as i64 <= 2 * (self.min_arm_width as i64)
            && self.max_trunk_width as i64 <= 2 * (self.max_arm_width as i64);
        let room: bool = 0 <= self.min_arm_highness && 0 <= self.arm_top_margin
            && self.min_arm_highness as i64 + self.arm_top_margin as i64 <= (
        self.min_trunk_height as i64) * 1000 && 0 <= self.arm_offset;
        let flower: bool = self.flower_chance_percent <= 100 && 0 <= self.spike_length && 0
            <= self.spike_width;
        trunk && arms && room && flower
    }
}

impl Default for CactusParams {
    fn default() -> (p: CactusParams)
        ensures
            p == CactusParams::standard(),
            p.valid(),
    {
        CactusParams {
            min_trunk_height: 58,
            max_trunk_height: 157,
            min_trunk_width: 23_000,
            max_trunk_width: 30_000,
            min_arm_width: 15_000,
            max_arm_width: 30_000,
            min_arm_highness: 20_000,
            arm_top_margin: 10_000,
            arm_offset: 10_000,
            flower_chance_percent: 30,
            spike_count: 3,
            spike_length: 8_000,
            spike_width: 1_500,
        }
    }
}

/// The two draws that shape one arm, in the order they are made.
#[derive(Clone, Copy, Debug, PartialEq, Eq, Structural)]
pub struct ArmDraws {
    /// Height at which the arm branches off.
    pub height: i32,
    /// Raw draw that picks the length of the upright piece.
    pub caps_roll: u32,
}

/// The draws that shape one cactus, in the order they are made: the height
/// of the trunk, its width, the flower, then the arm on the right and the
/// arm on the left.
#[derive(Clone, Copy, Debug, PartialEq, Eq, Structural)]
pub struct CactusDraws {
    /// Height of the trunk, in whole units.
    pub trunk_height: i32,
    pub trunk_width: i32,
    /// Raw draw that decides whether the cactus flowers.
    pub flower_roll: u32,
    pub first_arm: ArmDraws,
    pub second_arm: ArmDraws,
}

impl ArmDraws {
    /// The arm branches off inside the range that the trunk leaves it.
    pub open spec fn within(self, params: CactusParams, trunk_height: i32) -> bool {
        params.min_arm_highness <= self.height <= trunk_height * 1000 - params.arm_top_margin
    }
}

impl CactusDraws {
    /// Every ranged draw lies in its range.
    pub open spec fn within(self, params: CactusParams) -> bool {
        &&& params.min_trunk_height <= self.trunk_height <= params.max_trunk_height
        &&& params.min_trunk_width <= self.trunk_width <= params.max_trunk_width
        &&& self.first_arm.within(params, self.trunk_height)
        &&& self.second_arm.within(params, self.trunk_height)
    }

    /// Whether every ranged draw lies in its range.
    pub fn is_within(&self, params: &CactusParams) -> (b: bool)
        ensures
            b == self.within(*params),
    {
        let top: i64 = (self.trunk_height as i64) * 1000 - params.arm_top_margin as i64;
        let trunk: bool = params.min_trunk_height <= self.trunk_height && self.trunk_height
            <= params.max_trunk_height && params.min_trunk_width <= self.trunk_width
            && self.trunk_width <= params.max_trunk_width;
        let first: bool = params.min_arm_highness <= self.first_arm.height
            && self.first_arm.height as i64 <= top;
        let second: bool = params.min_arm_highness <= self.second_arm.height
            && self.second_arm.height as i64 <= top;
        trunk && first && second
    }
}

/// Reach of an arm: between the least and the greatest reach as the trunk
/// is between its least and its greatest width, rounded down.
pub open spec fn arm_width_of(params: CactusParams, trunk_width: int) -> int {
    params.min_arm_width + ((trunk_width - params.min_trunk_width) * (params.max_arm_width
        - params.min_arm_width)) / (params.max_trunk_width - params.min_trunk_width)
}

/// Length of the upright piece of an arm: one, two or three times the
/// radius of its curve, but no more than the trunk rises above the arm.
pub open spec fn caps_length_of(curve_radius: int, caps_roll: u32, room: int) -> int {
    let wanted = curve_radius * (caps_roll % 3 + 1);
    if wanted <= room {
        wanted
    } else {
        room
    }
}

/// The sizes of the cactus that the draws describe.
pub open spec fn cactus_root(params: CactusParams, draws: CactusDraws) -> CactusRoot {
    CactusRoot {
        trunk_width: draws.trunk_width as i64,
        trunk_height: (draws.trunk_height * 1000) as i64,
        arm_width: arm_width_of(params, draws.trunk_width as int) as i64,
        arm_length: (draws.trunk_width / 2) as i64,
        flower: draws.flower_roll % 100 < params.flower_chance_percent,
    }
}

/// The arm on the given side of the cactus that the draws describe.
pub open spec fn cactus_arm(draws: CactusDraws, arm: ArmDraws, side: int) -> CactusArm {
    CactusArm {
        side: side as i64,
        height: arm.height as i64,
        caps_length: caps_length_of(
            draws.trunk_width / 2,
            arm.caps_roll,
            draws.trunk_height * 1000 - arm.height,
        ) as i64,
        reaction: Reaction::resting(),
    }
}

/// Width of the straight piece of an arm: what its reach leaves beside the
/// curve.
pub open spec fn rect_width_of(root: CactusRoot) -> int {
    root.arm_width - root.arm_length
}

/// Size of the hitbox of a cactus: as high as the trunk and wide enough for
/// the trunk and both arms.
pub open spec fn collider_size_of(root: CactusRoot) -> Vec2 {
    Vec2 {
        x: (root.trunk_width + 2 * root.arm_width - root.arm_length / 2) as i64,
        y: root.trunk_height,
    }
}

/// Sizes that a layout can be computed from: none is negative, the curve of
/// an arm is no wider than the arm reaches, and all stay far inside the
/// range of the machine's integers.
pub open spec fn sizes_in_bounds(root: CactusRoot) -> bool {
    &&& 0 <= root.trunk_width <= i32::MAX
    &&& 0 <= root.trunk_height <= i32::MAX
    &&& 0 <= root.arm_length <= root.arm_width <= i32::MAX
}

/// An arm that a layout can be computed from: it is on one side, branches
/// off at a height on the trunk, and its upright piece has a length.
pub open spec fn arm_in_bounds(root: CactusRoot, arm: CactusArm) -> bool {
    &&& arm.side == 1 || arm.side == -1
    &&& 0 <= arm.height <= root.trunk_height
    &&& 0 <= arm.caps_length <= root.trunk_height - arm.height
}

/// No derived size of a cactus is negative.
///
/// Whatever valid parameters and draws in their ranges describe: the trunk
/// has a width and a height, an arm reaches at least as far as its curve is
/// wide and no farther than the greatest reach, the hitbox has a size, and
/// each arm branches off on the trunk with an upright piece that ends at or
/// below the top of the trunk.
pub proof fn lemma_sizes_nonnegative(params: CactusParams, draws: CactusDraws)
    requires
        params.valid(),
        draws.within(params),
    ensures
        sizes_in_bounds(cactus_root(params, draws)),
        0 < cactus_root(params, draws).trunk_width,
        0 < cactus_root(params, draws).trunk_height,
        params.min_arm_width <= cactus_root(params, draws).arm_width <= params.max_arm_width,
        0 <= rect_width_of(cactus_root(params, draws)),
        0 <= collider_size_of(cactus_root(params, draws)).x,
        0 <= collider_size_of(cactus_root(params, draws)).y,
        arm_in_bounds(cactus_root(params, draws), cactus_arm(draws, draws.first_arm, 1)),
        arm_in_bounds(cactus_root(params, draws), cactus_arm(draws, draws.second_arm, -1)),
{
    lemma_arm_width_bounds(params, draws.trunk_width as int);
    lemma_caps_length_bounds(
        draws.trunk_width / 2,
        draws.first_arm.caps_roll,
        draws.trunk_height * 1000 - draws.first_arm.height,
    );
    lemma_caps_length_bounds(
        draws.trunk_width / 2,
        draws.second_arm.caps_roll,
        draws.trunk_height * 1000 - draws.second_arm.height,
    );
}

/// The reach of an arm lies between the least and the greatest reach, and
/// is at least half the width of the trunk, rounded down.
pub proof fn lemma_arm_width_bounds(params: CactusParams, trunk_width: int)
    requires
        params.valid(),
        params.min_trunk_width <= trunk_width <= params.max_trunk_width,
    ensures
        params.min_arm_width <= arm_width_of(params, trunk_width) <= params.max_arm_width,
        trunk_width / 2 <= arm_width_of(params, trunk_width),
{
    let t = trunk_width - params.min_trunk_width;
    let span = params.max_trunk_width - params.min_trunk_width;
    let gain = params.max_arm_width - params.min_arm_width;
    let q = (t * gain) / span;
    let low = 2 * params.min_arm_width - params.min_trunk_width;
    let high = 2 * params.max_arm_width - params.max_trunk_width;
    assert(0 <= t * gain <= span * gain) by (nonlinear_arith)
        requires
            0 <= t <= span,
            0 <= gain,
    ;
    assert(span * q <= t * gain < span * q + span && 0 <= q <= gain) by (nonlinear_arith)
        requires
            q == (t * gain) / span,
            0 < span,
            0 <= t * gain <= span * gain,
    ;
    assert(2 * (t * gain) == t * high - t * low + t * span) by (nonlinear_arith)
        requires
            2 * gain == high - low + span,
    ;
    assert(span * (2 * q + 2) > span * (t - low)) by (nonlinear_arith)
        requires
            2 * (t * gain) == t * high - t * low + t * span,
            t * gain < span * q + span,
            0 <= t <= span,
            0 <= low,
            0 <= high,
            0 < span,
    ;
    assert(2 * q + 2 > t - low) by (nonlinear_arith)
        requires
            span * (2 * q + 2) > span * (t - low),
            0 < span,
    ;
}

/// The upright piece of an arm has a length and fits into the room it has.
pub proof fn lemma_caps_length_bounds(curve_radius: int, caps_roll: u32, room: int)
    requires
        0 <= curve_radius,
        0 <= room,
    ensures
        0 <= caps_length_of(curve_radius, caps_roll, room) <= room,
        caps_length_of(curve_radius, caps_roll, room) <= 3 * curve_radius,
{
    let k = caps_roll % 3 + 1;
    assert(0 <= curve_radius * k <= 3 * curve_radius) by (nonlinear_arith)
        requires
            0 <= curve_radius,
            1 <= k <= 3,
    ;
}

/// Spike `i` of a flower at `(x, y)` on `parent`. The spikes point away
/// from each other, the first one straight down.
pub open spec fn spike_node(params: CactusParams, parent: usize, x: int, y: int, i: int) -> Node {
    Node {
        parent: Some(parent),
        translation: Vec3 { x: x as i64, y: y as i64, z: SPIKE_LAYER },
        rotation: (HALF_TURN + (FULL_TURN * i) / (params.spike_count as int)) as i64,
        shape: Shape::Rectangle {
            width: params.spike_width as i64,
            height: params.spike_length as i64,
        },
        part: Part::Spike,
    }
}

/// The spikes of a flower at `(x, y)` on `parent`; none where the cactus
/// does not flower.
pub open spec fn flower_nodes(
    params: CactusParams,
    flower: bool,
    parent: usize,
    x: int,
    y: int,
) -> Seq<Option<Node>> {
    if flower {
        Seq::new(params.spike_count as nat, |i: int| Some(spike_node(params, parent, x, y, i)))
    } else {
        Seq::empty()
    }
}

/// Number of nodes of one flower.
pub open spec fn flower_len(params: CactusParams, flower: bool) -> int {
    if flower {
        params.spike_count as int
    } else {
        0
    }
}

/// The root of a cactus, at the place it was spawned.
pub open spec fn root_node(root: CactusRoot, position: Vec2) -> Node {
    Node {
        parent: None,
        translation: Vec3 { x: position.x, y: position.y, z: 0 },
        rotation: 0,
        shape: Shape::Empty,
        part: Part::CactusRoot(root),
    }
}

/// The round cap on top of the trunk.
pub open spec fn cap_node(root: CactusRoot, parent: usize) -> Node {
    Node {
        parent: Some(parent),
        translation: Vec3 { x: 0, y: root.trunk_height, z: CAP_LAYER },
        rotation: 0,
        shape: Shape::Circle { radius: (root.trunk_width / 2) as i64 },
        part: Part::Cap,
    }
}

/// The trunk, centred at half its height.
pub open spec fn trunk_node(root: CactusRoot, parent: usize) -> Node {
    Node {
        parent: Some(parent),
        translation: Vec3 { x: 0, y: (root.trunk_height / 2) as i64, z: TRUNK_LAYER },
        rotation: 0,
        shape: Shape::Rectangle { width: root.trunk_width, height: root.trunk_height },
        part: Part::Trunk,
    }
}

/// The hitbox, at the centre of the trunk.
pub open spec fn collider_node(root: CactusRoot, trunk: usize) -> Node {
    Node {
        parent: Some(trunk),
        translation: Vec3 { x: 0, y: 0, z: 0 },
        rotation: 0,
        shape: Shape::Empty,
        part: Part::CactusCollider(CactusCollider(Collider { size: collider_size_of(root) })),
    }
}

/// The origin of an arm, beside the axis of the trunk at the height where
/// the arm branches off.
pub open spec fn arm_node(params: CactusParams, root: CactusRoot, arm: CactusArm, trunk: usize) -> Node {
    Node {
        parent: Some(trunk),
        translation: Vec3 {
            x: (arm.side * params.arm_offset) as i64,
            y: (arm.height - root.trunk_height / 2) as i64,
            z: (-TRUNK_LAYER) as i64,
        },
        rotation: 0,
        shape: Shape::Empty,
        part: Part::CactusArm(arm),
    }
}

/// The straight piece of an arm, which leaves the trunk sideways.
pub open spec fn side_node(root: CactusRoot, arm: CactusArm, parent: usize) -> Node {
    Node {
        parent: Some(parent),
        translation: Vec3 { x: (arm.side * (rect_width_of(root) / 2)) as i64, y: 0, z: SIDE_LAYER },
        rotation: 0,
        shape: Shape::Rectangle { width: rect_width_of(root) as i64, height: root.arm_length },
        part: Part::Segment,
    }
}

/// The curved piece of an arm, between the straight and the upright one.
pub open spec fn curve_node(root: CactusRoot, arm: CactusArm, parent: usize) -> Node {
    Node {
        parent: Some(parent),
        translation: Vec3 {
            x: (arm.side * rect_width_of(root)) as i64,
            y: (root.arm_length / 2) as i64,
            z: CURVE_LAYER,
        },
        rotation: (arm.side * HALF_TURN) as i64,
        shape: Shape::CircularSector { radius: root.arm_length, angle: SECTOR_ANGLE },
        part: Part::Segment,
    }
}

/// The upright piece at the end of an arm.
pub open spec fn capsule_node(root: CactusRoot, arm: CactusArm, parent: usize) -> Node {
    Node {
        parent: Some(parent),
        translation: Vec3 {
            x: (arm.side * (root.arm_width - root.arm_length / 2)) as i64,
            y: (arm.caps_length / 2) as i64,
            z: CAPSULE_LAYER,
        },
        rotation: 0,
        shape: Shape::Capsule { radius: (root.arm_length / 2) as i64, length: arm.caps_length },
        part: Part::Segment,
    }
}

/// The nodes of one arm: its origin in slot `base`, then its three pieces
/// and the flower on its tip.
pub open spec fn arm_nodes(
    params: CactusParams,
    root: CactusRoot,
    arm: CactusArm,
    trunk: usize,
    base: int,
) -> Seq<Option<Node>> {
    seq![
        Some(arm_node(params, root, arm, trunk)),
        Some(side_node(root, arm, base as usize)),
        Some(curve_node(root, arm, base as usize)),
        Some(capsule_node(root, arm, base as usize)),
    ] + flower_nodes(
        params,
        root.flower,
        base as usize,
        arm.side * (root.arm_width - root.arm_length / 2),
        arm.caps_length + root.arm_length / 2,
    )
}

/// Slot of the trunk of a cactus whose root is in slot `base`.
pub open spec fn trunk_slot(params: CactusParams, root: CactusRoot, base: int) -> int {
    base + 2 + flower_len(params, root.flower)
}

/// Slot of the hitbox of a cactus whose root is in slot `base`.
pub open spec fn collider_slot(params: CactusParams, root: CactusRoot, base: int) -> int {
    trunk_slot(params, root, base) + 1
}

/// Slot of the first arm of a cactus whose root is in slot `base`.
pub open spec fn first_arm_slot(params: CactusParams, root: CactusRoot, base: int) -> int {
    trunk_slot(params, root, base) + 2
}

/// Slot of the second arm of a cactus whose root is in slot `base`.
pub open spec fn second_arm_slot(params: CactusParams, root: CactusRoot, base: int) -> int {
    first_arm_slot(params, root, base) + 4 + flower_len(params, root.flower)
}

/// Number of nodes of a cactus.
pub open spec fn cactus_len(params: CactusParams, root: CactusRoot) -> int {
    12 + 3 * flower_len(params, root.flower)
}

/// Every node of a cactus with the given sizes and arms, for a root in slot
/// `base`: the root, the cap and its flower, the trunk, the hitbox, then
/// the two arms.
pub open spec fn laid_out(
    params: CactusParams,
    root: CactusRoot,
    first: CactusArm,
    second: CactusArm,
    position: Vec2,
    base: int,
) -> Seq<Option<Node>> {
    let trunk = trunk_slot(params, root, base) as usize;
    seq![Some(root_node(root, position)), Some(cap_node(root, base as usize))] + flower_nodes(
        params,
        root.flower,
        base as usize,
        0,
        root.trunk_height + root.trunk_width / 2,
    ) + seq![Some(trunk_node(root, base as usize)), Some(collider_node(root, trunk))] + arm_nodes(
        params,
        root,
        first,
        trunk,
        first_arm_slot(params, root, base),
    ) + arm_nodes(params, root, second, trunk, second_arm_slot(params, root, base))
}

/// Every node of the cactus that the draws describe, for a root in slot
/// `base`.
pub open spec fn cactus_nodes(
    params: CactusParams,
    draws: CactusDraws,
    position: Vec2,
    base: int,
) -> Seq<Option<Node>> {
    laid_out(
        params,
        cactus_root(params, draws),
        cactus_arm(draws, draws.first_arm, 1),
        cactus_arm(draws, draws.second_arm, -1),
        position,
        base,
    )
}

/// `value` on the given side: itself on the right, its negative on the left.
fn mirrored(side: i64, value: i64) -> (r: i64)
    requires
        side == 1 || side == -1,
        i64::MIN < value,
    ensures
        r == side * value,
{
    if side == 1 {
        value
    } else {
        -value
    }
}

/// Adds the spikes of one flower to the scene.
fn push_flower(
    scene: &mut Scene,
    params: &CactusParams,
    flower: bool,
    parent: usize,
    x: i64,
    y: i64,
)
    requires
        old(scene).wf(),
        alive(old(scene)@, parent as int),
        params.valid(),
    ensures
        final(scene).wf(),
        final(scene)@ == old(scene)@ + flower_nodes(*params, flower, parent, x as int, y as int),
{
    if flower {
        let count: u32 = params.spike_count;
        let mut i: u32 = 0;
        while i < count
            invariant
                i <= count,
                count == params.spike_count,
                params.valid(),
                scene.wf(),
                alive(old(scene)@, parent as int),
                scene@ == old(scene)@ + Seq::new(
                    i as nat,
                    |k: int| Some(spike_node(*params, parent, x as int, y as int, k)),
                ),
            decreases count - i,
        {
            let turn: i64 = HALF_TURN + (FULL_TURN * (i as i64)) / (count as i64);
            let node = Node {
                parent: Some(parent),
                translation: Vec3 { x, y, z: SPIKE_LAYER },
                rotation: turn,
                shape: Shape::Rectangle {
                    width: params.spike_width as i64,
                    height: params.spike_length as i64,
                },
                part: Part::Spike,
            };
            let ghost before = scene@;
            assert(before[parent as int] == old(scene)@[parent as int]);
            let slot = scene.spawn(node);
            proof {
                assert(node == spike_node(*params, parent, x as int, y as int, i as int));
                assert(scene@ =~= old(scene)@ + Seq::new(
                    (i + 1) as nat,
                    |k: int| Some(spike_node(*params, parent, x as int, y as int, k)),
                ));
            }
            i += 1;
        }
    } else {
        assert(scene@ =~= old(scene)@ + Seq::<Option<Node>>::empty());
    }
}

/// Adds one arm to the scene, as a child of the trunk.
fn push_arm(
    scene: &mut Scene,
    params: &CactusParams,
    root: &CactusRoot,
    arm: &CactusArm,
    trunk: usize,
)
    requires
        old(scene).wf(),
        alive(old(scene)@, trunk as int),
        params.valid(),
        sizes_in_bounds(*root),
        arm_in_bounds(*root, *arm),
    ensures
        final(scene).wf(),
        final(scene)@ == old(scene)@ + arm_nodes(
            *params,
            *root,
            *arm,
            trunk,
            old(scene)@.len() as int,
        ),
{
    let rect_width: i64 = root.arm_width - root.arm_length;
    let tip: i64 = root.arm_width - root.arm_length / 2;
    let origin = Node {
        parent: Some(trunk),
        translation: Vec3 {
            x: mirrored(arm.side, params.arm_offset as i64),
            y: arm.height - root.trunk_height / 2,
            z: -TRUNK_LAYER,
        },
        rotation: 0,
        shape: Shape::Empty,
        part: Part::CactusArm(*arm),
    };
    let slot = scene.spawn(origin);
    let base: usize = slot.unwrap();
    assert(scene@ == old(scene)@.push(Some(origin)));
    let side = Node {
        parent: Some(base),
        translation: Vec3 { x: mirrored(arm.side, rect_width / 2), y: 0, z: SIDE_LAYER },
        rotation: 0,
        shape: Shape::Rectangle { width: rect_width, height: root.arm_length },
        part: Part::Segment,
    };
    let side_slot = scene.spawn(side);
    assert(scene@ == old(scene)@.push(Some(origin)).push(Some(side)));
    let curve = Node {
        parent: Some(base),
        translation: Vec3 {
            x: mirrored(arm.side, rect_width),
            y: root.arm_length / 2,
            z: CURVE_LAYER,
        },
        rotation: mirrored(arm.side, HALF_TURN),
        shape: Shape::CircularSector { radius: root.arm_length, angle: SECTOR_ANGLE },
        part: Part::Segment,
    };
    let curve_slot = scene.spawn(curve);
    assert(scene@ == old(scene)@.push(Some(origin)).push(Some(side)).push(Some(curve)));
    let capsule = Node {
        parent: Some(base),
        translation: Vec3 {
            x: mirrored(arm.side, tip),
            y: arm.caps_length / 2,
            z: CAPSULE_LAYER,
        },
        rotation: 0,
        shape: Shape::Capsule { radius: root.arm_length / 2, length: arm.caps_length },
        part: Part::Segment,
    };
    let capsule_slot = scene.spawn(capsule);
    assert(scene@ == old(scene)@.push(Some(origin)).push(Some(side)).push(Some(curve)).push(
        Some(capsule),
    ));
    let ghost pieces = scene@;
    proof {
        assert(origin == arm_node(*params, *root, *arm, trunk));
        assert(side == side_node(*root, *arm, base));
        assert(curve == curve_node(*root, *arm, base));
        assert(capsule == capsule_node(*root, *arm, base));
        assert(pieces =~= old(scene)@ + seq![
            Some(arm_node(*params, *root, *arm, trunk)),
            Some(side_node(*root, *arm, base)),
            Some(curve_node(*root, *arm, base)),
            Some(capsule_node(*root, *arm, base)),
        ]);
    }
    push_flower(
        scene,
        params,
        root.flower,
        base,
        mirrored(arm.side, tip),
        arm.caps_length + root.arm_length / 2,
    );
    proof {
        assert(scene@ =~= old(scene)@ + arm_nodes(
            *params,
            *root,
            *arm,
            trunk,
            old(scene)@.len() as int,
        ));
    }
}

impl CactusRoot {
    /// The sizes of the cactus that the draws describe.
    pub fn from_draws(params: &CactusParams, draws: &CactusDraws) -> (root: CactusRoot)
        requires
            params.valid(),
            draws.within(*params),
        ensures
            root == cactus_root(*params, *draws),
            sizes_in_bounds(root),
    {
        proof {
            lemma_sizes_nonnegative(*params, *draws);
        }
        let trunk_width: i64 = draws.trunk_width as i64;
        let span: i64 = params.max_trunk_width as i64 - params.min_trunk_width as i64;
        let gain: i64 = params.max_arm_width as i64 - params.min_arm_width as i64;
        let offset: i64 = trunk_width - params.min_trunk_width as i64;
        assert(0 <= offset * gain <= 0x4000_0000_0000_0000) by (nonlinear_arith)
            requires
                0 <= offset <= 0x8000_0000,
                0 <= gain <= 0x8000_0000,
        ;
        CactusRoot {
            trunk_width,
            trunk_height: (draws.trunk_height as i64) * 1000,
            arm_width: params.min_arm_width as i64 + (offset * gain) / span,
            arm_length: trunk_width / 2,
            flower: draws.flower_roll % 100 < params.flower_chance_percent,
        }
    }
}

impl CactusArm {
    /// The arm on the given side of the cactus that the draws describe,
    /// from the two draws made for it.
    pub fn from_draws(
        params: &CactusParams,
        draws: &CactusDraws,
        arm: &ArmDraws,
        side: i64,
    ) -> (r: CactusArm)
        requires
            params.valid(),
            draws.within(*params),
            arm.within(*params, draws.trunk_height),
            side == 1 || side == -1,
        ensures
            r == cactus_arm(*draws, *arm, side as int),
            arm_in_bounds(cactus_root(*params, *draws), r),
    {
        let curve_radius: i64 = (draws.trunk_width as i64) / 2;
        let factor: i64 = (arm.caps_roll % 3 + 1) as i64;
        let room: i64 = (draws.trunk_height as i64) * 1000 - arm.height as i64;
        proof {
            lemma_caps_length_bounds(curve_radius as int, arm.caps_roll, room as int);
        }
        assert(0 <= curve_radius * factor <= 3 * curve_radius) by (nonlinear_arith)
            requires
                0 <= curve_radius,
                1 <= factor <= 3,
        ;
        let wanted: i64 = curve_radius * factor;
        CactusArm {
            side,
            height: arm.height as i64,
            caps_length: if wanted <= room {
                wanted
            } else {
                room
            },
            reaction: Reaction::new(),
        }
    }
}

/// Makes the two draws that shape one arm: first the height at which it
/// branches off, then the length of its upright piece.
fn draw_arm(params: &CactusParams, trunk_height: i32, rng: &mut WyRand) -> (arm: ArmDraws)
    requires
        params.valid(),
        params.min_trunk_height <= trunk_height <= params.max_trunk_height,
    ensures
        arm.within(*params, trunk_height),
{
    let height: i32 = gen_range_inclusive(
        rng,
        params.min_arm_highness,
        trunk_height * 1000 - params.arm_top_margin,
    );
    let caps_roll: u32 = next_u32(rng);
    ArmDraws { height, caps_roll }
}

/// Makes the draws that shape one cactus, in their fixed order: the height
/// of the trunk, its width, the flower, then two draws for the arm on the
/// right and two for the arm on the left.
pub fn draw_cactus(params: &CactusParams, rng: &mut WyRand) -> (draws: CactusDraws)
    requires
        params.valid(),
    ensures
        draws.within(*params),
{
    let trunk_height: i32 = gen_range_inclusive(
        rng,
        params.min_trunk_height,
        params.max_trunk_height,
    );
    let trunk_width: i32 = gen_range_inclusive(
        rng,
        params.min_trunk_width,
        params.max_trunk_width,
    );
    let flower_roll: u32 = next_u32(rng);
    let first_arm = draw_arm(params, trunk_height, rng);
    let second_arm = draw_arm(params, trunk_height, rng);
    CactusDraws { trunk_height, trunk_width, flower_roll, first_arm, second_arm }
}

/// Adds to the scene the cactus that the draws describe, its root at
/// `position`, and returns the slot of the root. The nodes that were in the
/// scene stay as they were.
pub fn build_cactus(
    scene: &mut Scene,
    params: &CactusParams,
    position: Vec2,
    draws: &CactusDraws,
) -> (root: usize)
    requires
        old(scene).wf(),
        params.valid(),
        draws.within(*params),
    ensures
        final(scene).wf(),
        root == old(scene)@.len(),
        final(scene)@ == old(scene)@ + cactus_nodes(
            *params,
            *draws,
            position,
            old(scene)@.len() as int,
        ),
{
    let sizes = CactusRoot::from_draws(params, draws);
    let first = CactusArm::from_draws(params, draws, &draws.first_arm, 1);
    let second = CactusArm::from_draws(params, draws, &draws.second_arm, -1);
    let ghost start = old(scene)@;
    let ghost base = start.len() as int;

    let root_part = Node {
        parent: None,
        translation: Vec3 { x: position.x, y: position.y, z: 0 },
        rotation: 0,
        shape: Shape::Empty,
        part: Part::CactusRoot(sizes),
    };
    let root_slot = scene.spawn(root_part);
    let root: usize = root_slot.unwrap();
    let cap = Node {
        parent: Some(root),
        translation: Vec3 { x: 0, y: sizes.trunk_height, z: CAP_LAYER },
        rotation: 0,
        shape: Shape::Circle { radius: sizes.trunk_width / 2 },
        part: Part::Cap,
    };
    let cap_slot = scene.spawn(cap);
    let ghost head = scene@;
    proof {
        assert(head =~= start + seq![
            Some(root_node(sizes, position)),
            Some(cap_node(sizes, base as usize)),
        ]);
    }
    push_flower(
        scene,
        params,
        sizes.flower,
        root,
        0,
        sizes.trunk_height + sizes.trunk_width / 2,
    );
    let ghost crowned = scene@;
    let trunk_part = Node {
        parent: Some(root),
        translation: Vec3 { x: 0, y: sizes.trunk_height / 2, z: TRUNK_LAYER },
        rotation: 0,
        shape: Shape::Rectangle { width: sizes.trunk_width, height: sizes.trunk_height },
        part: Part::Trunk,
    };
    assert(crowned[root as int] == head[root as int]);
    let trunk_slot_found = scene.spawn(trunk_part);
    let trunk: usize = trunk_slot_found.unwrap();
    let collider = Node {
        parent: Some(trunk),
        translation: Vec3 { x: 0, y: 0, z: 0 },
        rotation: 0,
        shape: Shape::Empty,
        part: Part::CactusCollider(
            CactusCollider(
                Collider {
                    size: Vec2 {
                        x: sizes.trunk_width + 2 * sizes.arm_width - sizes.arm_length / 2,
                        y: sizes.trunk_height,
                    },
                },
            ),
        ),
    };
    let collider_slot_found = scene.spawn(collider);
    let ghost body = scene@;
    proof {
        assert(trunk as int == trunk_slot(*params, sizes, base));
        assert(body =~= crowned + seq![
            Some(trunk_node(sizes, base as usize)),
            Some(collider_node(sizes, trunk)),
        ]);
    }
    push_arm(scene, params, &sizes, &first, trunk);
    let ghost one_armed = scene@;
    assert(one_armed[trunk as int] == body[trunk as int]);
    push_arm(scene, params, &sizes, &second, trunk);
    proof {
        assert(body.len() == first_arm_slot(*params, sizes, base));
        assert(one_armed.len() == second_arm_slot(*params, sizes, base));
        assert(scene@ =~= start + cactus_nodes(*params, *draws, position, base));
    }
    root
}

/// Generates a cactus from the random source and adds it to the scene, its
/// root at `position`; returns the slot of the root.
///
/// The cactus is the one that `build_cactus` builds from the draws that
/// `draw_cactus` makes, so the same sequence of draws gives the same
/// cactus, node for node.
pub fn spawn_cactus(
    scene: &mut Scene,
    params: &CactusParams,
    position: Vec2,
    rng: &mut WyRand,
) -> (root: usize)
    requires
        old(scene).wf(),
        params.valid(),
    ensures
        final(scene).wf(),
        root == old(scene)@.len(),
        exists|draws: CactusDraws|
            draws.within(*params) && final(scene)@ == old(scene)@ + #[trigger] cactus_nodes(
                *params,
                draws,
                position,
                old(scene)@.len() as int,
            ),
{
    let draws = draw_cactus(params, rng);
    build_cactus(scene, params, position, &draws)
}

/// The shape of a generated cactus: how many nodes it has, that each of
/// them is there, that the root hangs on nothing while every other node
/// hangs on an earlier node of the same cactus, and that the hitbox is the
/// one node that carries a collider.
pub proof fn lemma_single_collider(
    params: CactusParams,
    draws: CactusDraws,
    position: Vec2,
    base: int,
)
    requires
        0 <= base,
        base + cactus_len(params, cactus_root(params, draws)) <= usize::MAX,
    ensures
        ({
            let root = cactus_root(params, draws);
            let nodes = cactus_nodes(params, draws, position, base);
            &&& nodes.len() == cactus_len(params, root)
            &&& forall|k: int| 0 <= k < nodes.len() ==> (#[trigger] nodes[k]) is Some
            &&& nodes[0].unwrap().parent is None
            &&& forall|k: int|
                1 <= k < nodes.len() ==> (#[trigger] nodes[k]).unwrap().parent is Some && base
                    <= nodes[k].unwrap().parent.unwrap() < base + k
            &&& forall|k: int|
                0 <= k < nodes.len() ==> ((#[trigger] nodes[k]).unwrap().part.hitbox() is Some
                    <==> base + k == collider_slot(params, root, base))
        }),
{
    let root = cactus_root(params, draws);
    let first = cactus_arm(draws, draws.first_arm, 1);
    let second = cactus_arm(draws, draws.second_arm, -1);
    let nodes = cactus_nodes(params, draws, position, base);
    let f = flower_len(params, root.flower);
    let trunk = trunk_slot(params, root, base);
    let a1 = first_arm_slot(params, root, base);
    let a2 = second_arm_slot(params, root, base);
    let head = seq![Some(root_node(root, position)), Some(cap_node(root, base as usize))];
    let crown = flower_nodes(
        params,
        root.flower,
        base as usize,
        0,
        root.trunk_height + root.trunk_width / 2,
    );
    let body = seq![
        Some(trunk_node(root, base as usize)),
        Some(collider_node(root, trunk as usize)),
    ];
    let right = arm_nodes(params, root, first, trunk as usize, a1);
    let left = arm_nodes(params, root, second, trunk as usize, a2);
    assert(nodes == head + crown + body + right + left);
    assert(crown.len() == f);
    assert(right.len() == 4 + f);
    assert(left.len() == 4 + f);
    assert forall|k: int| 0 <= k < nodes.len() implies (#[trigger] nodes[k]) is Some && (k >= 1
        ==> nodes[k].unwrap().parent is Some && base <= nodes[k].unwrap().parent.unwrap() < base
        + k) && (nodes[k].unwrap().part.hitbox() is Some <==> base + k == trunk + 1) by {
        if k < 2 {
            assert(nodes[k] == head[k]);
        } else if k < 2 + f {
            assert(nodes[k] == crown[k - 2]);
        } else if k < 4 + f {
            assert(nodes[k] == body[k - 2 - f]);
        } else if k < 8 + 2 * f {
            assert(nodes[k] == right[k - 4 - f]);
        } else {
            assert(nodes[k] == left[k - 8 - 2 * f]);
        }
    }
    assert(nodes[0] == head[0]);
}

/// A generated cactus is one subtree: in a scene that ends with its nodes,
/// each of them is the root of the cactus or a descendant of it.
pub proof fn lemma_cactus_is_one_subtree(
    before: Seq<Option<Node>>,
    params: CactusParams,
    draws: CactusDraws,
    position: Vec2,
    j: int,
)
    requires
        before.len() + cactus_len(params, cactus_root(params, draws)) <= usize::MAX,
        before.len() <= j < before.len() + cactus_len(params, cactus_root(params, draws)),
    ensures
        crate::scene::in_subtree(
            before + cactus_nodes(params, draws, position, before.len() as int),
            before.len() as int,
            j,
        ),
    decreases j,
{
    let base = before.len() as int;
    let nodes = cactus_nodes(params, draws, position, base);
    let s = before + nodes;
    lemma_single_collider(params, draws, position, base);
    assert(s[j] == nodes[j - base]);
    if j > base {
        let p = nodes[j - base].unwrap().parent.unwrap() as int;
        lemma_cactus_is_one_subtree(before, params, draws, position, p);
    }
}

/// No side, radius or length of the outline is negative.
pub open spec fn shape_nonnegative(shape: Shape) -> bool {
    match shape {
        Shape::Empty => true,
        Shape::Rectangle { width, height } => 0 <= width && 0 <= height,
        Shape::Circle { radius } => 0 <= radius,
        Shape::CircularSector { radius, angle } => 0 <= radius && 0 <= angle,
        Shape::Capsule { radius, length } => 0 <= radius && 0 <= length,
    }
}

/// No node of a generated cactus has an outline or a hitbox with a negative
/// measure, whatever valid parameters and draws in their ranges describe.
pub proof fn lemma_shapes_nonnegative(
    params: CactusParams,
    draws: CactusDraws,
    position: Vec2,
    base: int,
)
    requires
        params.valid(),
        draws.within(params),
    ensures
        forall|k: int|
            0 <= k < cactus_nodes(params, draws, position, base).len() ==> {
                let node = (#[trigger] cactus_nodes(params, draws, position, base)[k]).unwrap();
                &&& shape_nonnegative(node.shape)
                &&& match node.part.hitbox() {
                    Some(collider) => 0 <= collider.size.x && 0 <= collider.size.y,
                    None => true,
                }
            },
{
    let root = cactus_root(params, draws);
    let first = cactus_arm(draws, draws.first_arm, 1);
    let second = cactus_arm(draws, draws.second_arm, -1);
    let nodes = cactus_nodes(params, draws, position, base);
    let f = flower_len(params, root.flower);
    let trunk = trunk_slot(params, root, base);
    let a1 = first_arm_slot(params, root, base);
    let a2 = second_arm_slot(params, root, base);
    let head = seq![Some(root_node(root, position)), Some(cap_node(root, base as usize))];
    let crown = flower_nodes(
        params,
        root.flower,
        base as usize,
        0,
        root.trunk_height + root.trunk_width / 2,
    );
    let body = seq![
        Some(trunk_node(root, base as usize)),
        Some(collider_node(root, trunk as usize)),
    ];
    let right = arm_nodes(params, root, first, trunk as usize, a1);
    let left = arm_nodes(params, root, second, trunk as usize, a2);
    lemma_sizes_nonnegative(params, draws);
    assert(nodes == head + crown + body + right + left);
    assert(crown.len() == f);
    assert(right.len() == 4 + f);
    assert(left.len() == 4 + f);
    assert forall|k: int| 0 <= k < nodes.len() implies {
        let node = (#[trigger] nodes[k]).unwrap();
        &&& shape_nonnegative(node.shape)
        &&& match node.part.hitbox() {
            Some(collider) => 0 <= collider.size.x && 0 <= collider.size.y,
            None => true,
        }
    } by {
        if k < 2 {
            assert(nodes[k] == head[k]);
        } else if k < 2 + f {
            assert(nodes[k] == crown[k - 2]);
        } else if k < 4 + f {
            assert(nodes[k] == body[k - 2 - f]);
        } else if k < 8 + 2 * f {
            assert(nodes[k] == right[k - 4 - f]);
        } else {
            assert(nodes[k] == left[k - 8 - 2 * f]);
        }
    }
}

/// A cactus is decided by its draws, and by the raw draws only as far as
/// their remainders go: draws that agree on the height and the width of the
/// trunk and on the heights of the arms, on the remainder of the flower
/// draw on division by a hundred, and on the remainders of the two draws
/// for the upright pieces on division by three, give the same cactus, node
/// for node.
pub proof fn lemma_same_draws_same_cactus(
    params: CactusParams,
    one: CactusDraws,
    other: CactusDraws,
    position: Vec2,
    base: int,
)
    requires
        one.trunk_height == other.trunk_height,
        one.trunk_width == other.trunk_width,
        one.flower_roll % 100 == other.flower_roll % 100,
        one.first_arm.height == other.first_arm.height,
        one.first_arm.caps_roll % 3 == other.first_arm.caps_roll % 3,
        one.second_arm.height == other.second_arm.height,
        one.second_arm.caps_roll % 3 == other.second_arm.caps_roll % 3,
    ensures
        cactus_nodes(params, one, position, base) == cactus_nodes(params, other, position, base),
{
    assert(cactus_root(params, one) == cactus_root(params, other));
    assert(cactus_arm(one, one.first_arm, 1) == cactus_arm(other, other.first_arm, 1));
    assert(cactus_arm(one, one.second_arm, -1) == cactus_arm(other, other.second_arm, -1));
}

/// Where the hitbox and the arms of a generated cactus are: the hitbox and
/// both arms hang on the trunk, nothing hangs on the hitbox, the two arms
/// are the only arms, and no node is a pterodactyl.
pub proof fn lemma_cactus_parts(
    params: CactusParams,
    draws: CactusDraws,
    position: Vec2,
    base: int,
)
    requires
        0 <= base,
        base + cactus_len(params, cactus_root(params, draws)) <= usize::MAX,
    ensures
        ({
            let root = cactus_root(params, draws);
            let nodes = cactus_nodes(params, draws, position, base);
            let trunk = trunk_slot(params, root, base);
            let first = first_arm_slot(params, root, base);
            let second = second_arm_slot(params, root, base);
            &&& base < trunk < trunk + 1 < first < second < base + nodes.len()
            &&& nodes[trunk - base] == Some(trunk_node(root, base as usize))
            &&& nodes[trunk + 1 - base] == Some(collider_node(root, trunk as usize))
            &&& nodes[first - base] == Some(
                arm_node(params, root, cactus_arm(draws, draws.first_arm, 1), trunk as usize),
            )
            &&& nodes[second - base] == Some(
                arm_node(params, root, cactus_arm(draws, draws.second_arm, -1), trunk as usize),
            )
            &&& forall|k: int|
                0 <= k < nodes.len() ==> {
                    let node = (#[trigger] nodes[k]).unwrap();
                    &&& node.parent != Some((trunk + 1) as usize)
                    &&& !(node.part is Pterodactyl)
                    &&& (node.part is CactusArm <==> base + k == first || base + k == second)
                }
        }),
{
    let root = cactus_root(params, draws);
    let first = cactus_arm(draws, draws.first_arm, 1);
    let second = cactus_arm(draws, draws.second_arm, -1);
    let nodes = cactus_nodes(params, draws, position, base);
    let f = flower_len(params, root.flower);
    let trunk = trunk_slot(params, root, base);
    let a1 = first_arm_slot(params, root, base);
    let a2 = second_arm_slot(params, root, base);
    let head = seq![Some(root_node(root, position)), Some(cap_node(root, base as usize))];
    let crown = flower_nodes(
        params,
        root.flower,
        base as usize,
        0,
        root.trunk_height + root.trunk_width / 2,
    );
    let body = seq![
        Some(trunk_node(root, base as usize)),
        Some(collider_node(root, trunk as usize)),
    ];
    let right = arm_nodes(params, root, first, trunk as usize, a1);
    let left = arm_nodes(params, root, second, trunk as usize, a2);
    assert(nodes == head + crown + body + right + left);
    assert(crown.len() == f);
    assert(right.len() == 4 + f);
    assert(left.len() == 4 + f);
    assert(nodes[trunk - base] == body[0]);
    assert(nodes[trunk + 1 - base] == body[1]);
    assert(nodes[a1 - base] == right[0]);
    assert(nodes[a2 - base] == left[0]);
    assert forall|k: int| 0 <= k < nodes.len() implies {
        let node = (#[trigger] nodes[k]).unwrap();
        &&& node.parent != Some((trunk + 1) as usize)
        &&& !(node.part is Pterodactyl)
        &&& (node.part is CactusArm <==> base + k == a1 || base + k == a2)
    } by {
        if k < 2 {
            assert(nodes[k] == head[k]);
        } else if k < 2 + f {
            assert(nodes[k] == crown[k - 2]);
        } else if k < 4 + f {
            assert(nodes[k] == body[k - 2 - f]);
        } else if k < 8 + 2 * f {
            assert(nodes[k] == right[k - 4 - f]);
        } else {
            assert(nodes[k] == left[k - 8 - 2 * f]);
        }
    }
}

} // verus!
