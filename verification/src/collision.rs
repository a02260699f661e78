//! Collision of the player's hitbox with the hitboxes of the scene, and
//! what a collision does.
use vstd::prelude::*;
use crate::cactus::{
    cactus_arm, cactus_len, cactus_nodes, cactus_root, collider_slot, first_arm_slot,
    lemma_cactus_parts, lemma_single_collider, second_arm_slot, trunk_slot, CactusDraws,
    CactusParams,
};
use crate::components::{
    AnimationIndices, CactusArm, Health, PlayerCollider, Pterodactyl, PTERODACTYL_DIE_LAST_FRAME,
};
use crate::math::{Vec2, Vec3};
use crate::scene::{
    alive, fits, in_subtree, root_of, swept, swept_away, well_formed, world_translation, Node,
    Part, Scene,
};

verus! {

/// Distance between two coordinates.
pub open spec fn distance(a: int, b: int) -> int {
    if a >= b {
        a - b
    } else {
        b - a
    }
}

/// Two axis-aligned boxes, each given by its centre and its half extent,
/// overlap: on both axes the centres are no farther apart than the half
/// extents add up to. Boxes that only touch overlap.
pub open spec fn overlap(pos1: Vec3, half1: Vec2, pos2: Vec3, half2: Vec2) -> bool {
    &&& distance(pos1.x as int, pos2.x as int) <= half1.x + half2.x
    &&& distance(pos1.y as int, pos2.y as int) <= half1.y + half2.y
}

/// It does not matter which of two boxes is named first.
pub proof fn lemma_overlap_symmetric(pos1: Vec3, half1: Vec2, pos2: Vec3, half2: Vec2)
    ensures
        overlap(pos1, half1, pos2, half2) == overlap(pos2, half2, pos1, half1),
{
}

/// Whether the coordinates `a` and `b` are no farther apart than `reach`
/// and `other_reach` add up to.
fn within_reach(a: i64, b: i64, reach: i64, other_reach: i64) -> (r: bool)
    ensures
        r == (distance(a as int, b as int) <= reach + other_reach),
{
    let gap: i128 = if a >= b {
        a as i128 - b as i128
    } else {
        b as i128 - a as i128
    };
    gap <= reach as i128 + other_reach as i128
}

/// Whether two axis-aligned boxes overlap, each given by its centre and its
/// half extent. The layers of the positions play no part.
pub fn is_colliding(pos1: Vec3, half_size1: Vec2, pos2: Vec3, half_size2: Vec2) -> (r: bool)
    ensures
        r == overlap(pos1, half_size1, pos2, half_size2),
{
    let collision_x: bool = within_reach(pos1.x, pos2.x, half_size1.x, half_size2.x);
    let collision_y: bool = within_reach(pos1.y, pos2.y, half_size1.y, half_size2.y);
    collision_x && collision_y
}

/// Node `i` carries a hitbox that overlaps the player's.
pub open spec fn touches(s: Seq<Option<Node>>, player: PlayerCollider, i: int) -> bool {
    alive(s, i) && match s[i].unwrap().part.hitbox() {
        Some(c) => overlap(
            player.position,
            player.collider.half(),
            world_translation(s, i),
            c.half(),
        ),
        None => false,
    }
}

/// For every slot, whether its node touches the player.
pub open spec fn hits(s: Seq<Option<Node>>, player: PlayerCollider) -> Seq<bool> {
    Seq::new(s.len(), |i: int| touches(s, player, i))
}

/// Node `j` touches the player and belongs to the tree with root `r`.
pub open spec fn claims(s: Seq<Option<Node>>, player: PlayerCollider, j: int, r: int) -> bool {
    touches(s, player, j) && root_of(s, j) == r
}

/// Some node in a slot before `k` touches the player and belongs to the tree
/// with root `r`.
pub open spec fn claimed_before(
    s: Seq<Option<Node>>,
    player: PlayerCollider,
    r: int,
    k: int,
) -> bool {
    exists|j: int| 0 <= j < k && #[trigger] claims(s, player, j, r)
}

/// The collision with node `i` counts for the player's health: the node
/// touches the player, and it is the first of its tree to do so.
pub open spec fn counts(s: Seq<Option<Node>>, player: PlayerCollider, i: int) -> bool {
    touches(s, player, i) && !claimed_before(s, player, root_of(s, i), i)
}

/// The player's health after the collisions with the first `k` slots, taken
/// in the order of the slots: of each tree the first hitbox that touches
/// counts, a pickup for one point more, any other hitbox for one point less.
pub open spec fn health_after(s: Seq<Option<Node>>, player: PlayerCollider, k: int) -> Health
    decreases k,
{
    if k <= 0 {
        player.health
    } else {
        let health = health_after(s, player, k - 1);
        if counts(s, player, k - 1) {
            match s[k - 1].unwrap().part {
                Part::HealthPickup(_) => health.healed(),
                _ => health.damaged(),
            }
        } else {
            health
        }
    }
}

/// Node `i` is the hitbox of a cactus, a child of node `p`, and touches the
/// player.
pub open spec fn strikes(s: Seq<Option<Node>>, player: PlayerCollider, i: int, p: usize) -> bool {
    touches(s, player, i) && s[i].unwrap().part is CactusCollider && s[i].unwrap().parent == Some(
        p,
    )
}

/// Node `i` is the hitbox of a pterodactyl, a child of node `p`, and
/// touches the player.
pub open spec fn defeats(s: Seq<Option<Node>>, player: PlayerCollider, i: int, p: usize) -> bool {
    touches(s, player, i) && s[i].unwrap().part is PterodactylCollider && s[i].unwrap().parent
        == Some(p)
}

/// Some hitbox of a cactus that hangs on node `p` touches the player.
pub open spec fn struck_at(s: Seq<Option<Node>>, player: PlayerCollider, p: usize) -> bool {
    exists|i: int| strikes(s, player, i, p)
}

/// Some hitbox of a pterodactyl that hangs on node `p` touches the player.
pub open spec fn defeated_at(s: Seq<Option<Node>>, player: PlayerCollider, p: usize) -> bool {
    exists|i: int| defeats(s, player, i, p)
}

/// The node of an arm once the arm was struck.
pub open spec fn struck_node(node: Node, arm: CactusArm) -> Node {
    Node {
        parent: node.parent,
        translation: node.translation,
        rotation: node.rotation,
        shape: node.shape,
        part: Part::CactusArm(
            CactusArm {
                side: arm.side,
                height: arm.height,
                caps_length: arm.caps_length,
                reaction: arm.reaction.struck(),
            },
        ),
    }
}

/// The node of a pterodactyl once the pterodactyl was defeated.
pub open spec fn defeated_node(node: Node, pterodactyl: Pterodactyl) -> Node {
    Node {
        parent: node.parent,
        translation: node.translation,
        rotation: node.rotation,
        shape: node.shape,
        part: Part::Pterodactyl(pterodactyl.defeated()),
    }
}

/// Node `j` as the collisions leave it, before anything is removed: an arm
/// beside a struck hitbox starts to fall, a pterodactyl whose hitbox was
/// struck is defeated, and every other node stays as it is.
pub open spec fn reacted_node(s: Seq<Option<Node>>, player: PlayerCollider, j: int) -> Option<
    Node,
> {
    match s[j] {
        Some(node) => match node.part {
            Part::CactusArm(arm) => match node.parent {
                Some(p) => if struck_at(s, player, p) {
                    Some(struck_node(node, arm))
                } else {
                    s[j]
                },
                None => s[j],
            },
            Part::Pterodactyl(pterodactyl) => if defeated_at(s, player, j as usize) {
                Some(defeated_node(node, pterodactyl))
            } else {
                s[j]
            },
            _ => s[j],
        },
        None => None,
    }
}

/// The scene as the collisions leave it, before anything is removed.
pub open spec fn reacted(s: Seq<Option<Node>>, player: PlayerCollider) -> Seq<Option<Node>> {
    Seq::new(s.len(), |j: int| reacted_node(s, player, j))
}

/// The scene after the frame's collisions: the parts beside a struck hitbox
/// have reacted, and every hitbox that touched the player is gone, with
/// whatever hung on it.
pub open spec fn resolved(s: Seq<Option<Node>>, player: PlayerCollider) -> Seq<Option<Node>> {
    swept(reacted(s, player), hits(s, player))
}

/// Some hitbox of a cactus in a slot before `k` hangs on node `p` and
/// touches the player.
pub open spec fn struck_before(
    s: Seq<Option<Node>>,
    player: PlayerCollider,
    p: usize,
    k: int,
) -> bool {
    exists|i: int| 0 <= i < k && #[trigger] strikes(s, player, i, p)
}

/// Some hitbox of a pterodactyl in a slot before `k` hangs on node `p` and
/// touches the player.
pub open spec fn defeated_before(
    s: Seq<Option<Node>>,
    player: PlayerCollider,
    p: usize,
    k: int,
) -> bool {
    exists|i: int| 0 <= i < k && #[trigger] defeats(s, player, i, p)
}

/// As many `false` as asked for.
fn all_false(n: usize) -> (marks: Vec<bool>)
    ensures
        marks@.len() == n,
        forall|k: int| 0 <= k < n ==> !marks@[k],
{
    let mut marks: Vec<bool> = Vec::new();
    let mut k: usize = 0;
    while k < n
        invariant
            k <= n,
            marks@.len() == k,
            forall|q: int| 0 <= q < k ==> !marks@[q],
        decreases n - k,
    {
        marks.push(false);
        k += 1;
    }
    marks
}

/// Resolves the collisions of one frame.
///
/// Every hitbox of the scene is tested against the player's, all against
/// the scene as it is when the frame begins, in the order of the slots. A
/// pickup that touches the player gives one point of health; the hitbox of
/// a cactus or of a pterodactyl takes one. An obstacle counts once in a
/// frame: of the hitboxes of one tree only the first that touches changes
/// the health. The arms beside a struck cactus hitbox start to fall, a
/// pterodactyl whose hitbox was struck is defeated. Then each hitbox that
/// touched is removed with whatever hangs on it: a struck cactus keeps its
/// trunk and arms and loses only its hitbox.
pub fn detect_collision(scene: &mut Scene, player: &mut PlayerCollider)
    requires
        old(scene).wf(),
    ensures
        final(scene).wf(),
        final(scene)@ == resolved(old(scene)@, *old(player)),
        final(player).position == old(player).position,
        final(player).collider == old(player).collider,
        final(player).health == health_after(
            old(scene)@,
            *old(player),
            old(scene)@.len() as int,
        ),
{
    let ghost s = scene@;
    let ghost before = *player;
    let n: usize = scene.len();
    let world = scene.world_translations();
    let roots = scene.roots();
    let player_half = player.collider.half_size();
    let mut hit: Vec<bool> = Vec::new();
    let mut claimed: Vec<bool> = all_false(n);
    let mut struck: Vec<bool> = all_false(n);
    let mut defeated: Vec<bool> = all_false(n);
    let mut i: usize = 0;
    while i < n
        invariant
            i <= n,
            n == s.len(),
            scene@ == s,
            well_formed(s),
            world@.len() == n,
            forall|k: int| 0 <= k < n ==> #[trigger] world@[k] == world_translation(s, k),
            player_half == before.collider.half(),
            player.position == before.position,
            player.collider == before.collider,
            player.health == health_after(s, before, i as int),
            hit@.len() == i,
            forall|k: int| 0 <= k < i ==> hit@[k] == touches(s, before, k),
            roots@.len() == n,
            forall|k: int| 0 <= k < n ==> #[trigger] roots@[k] == root_of(s, k),
            forall|k: int| 0 <= k < n ==> #[trigger] roots@[k] <= k,
            claimed@.len() == n,
            forall|q: int|
                0 <= q < n ==> (#[trigger] claimed@[q] <==> claimed_before(s, before, q, i as int)),
            struck@.len() == n,
            defeated@.len() == n,
            forall|q: int|
                0 <= q < n ==> (#[trigger] struck@[q] <==> struck_before(
                    s,
                    before,
                    q as usize,
                    i as int,
                )),
            forall|q: int|
                0 <= q < n ==> (#[trigger] defeated@[q] <==> defeated_before(
                    s,
                    before,
                    q as usize,
                    i as int,
                )),
        decreases n - i,
    {
        let found = scene.get(i);
        let touched: bool = match found {
            Some(node) => match node.part.collider() {
                Some(c) => is_colliding(player.position, player_half, world[i], c.half_size()),
                None => false,
            },
            None => false,
        };
        assert(touched == touches(s, before, i as int));
        let ghost struck_then = struck@;
        let ghost defeated_then = defeated@;
        let ghost claimed_then = claimed@;
        if touched {
            let node = found.unwrap();
            assert(fits(s, i as int, s[i as int].unwrap()));
            let root: usize = roots[i];
            let first: bool = !claimed[root];
            assert(first == counts(s, before, i as int));
            claimed.set(root, true);
            match node.part {
                Part::HealthPickup(_) => {
                    if first {
                        player.health.heal();
                    }
                },
                Part::CactusCollider(_) => {
                    if first {
                        player.health.damage();
                    }
                    match node.parent {
                        Some(p) => {
                            struck.set(p, true);
                        },
                        None => {},
                    }
                },
                _ => {
                    if first {
                        player.health.damage();
                    }
                    match node.parent {
                        Some(p) => {
                            defeated.set(p, true);
                        },
                        None => {},
                    }
                },
            }
        }
        hit.push(touched);
        proof {
            assert forall|q: int| 0 <= q < n implies (#[trigger] claimed@[q] <==> claimed_before(
                s,
                before,
                q,
                i + 1,
            )) by {
                if claimed_before(s, before, q, i + 1) {
                    let t = choose|t: int| 0 <= t < i + 1 && #[trigger] claims(s, before, t, q);
                    if t < i {
                        assert(claimed_before(s, before, q, i as int));
                    }
                }
                if claimed_then[q] {
                    let t = choose|t: int| 0 <= t < i && #[trigger] claims(s, before, t, q);
                    assert(claims(s, before, t, q));
                }
                if claims(s, before, i as int, q) {
                    assert(claimed@[q]);
                }
            }
            assert forall|q: int| 0 <= q < n implies (#[trigger] struck@[q] <==> struck_before(
                s,
                before,
                q as usize,
                i + 1,
            )) by {
                if struck_before(s, before, q as usize, i + 1) {
                    let t = choose|t: int| 0 <= t < i + 1 && #[trigger] strikes(s, before, t, q as usize);
                    if t < i {
                        assert(struck_before(s, before, q as usize, i as int));
                    }
                }
                if struck_then[q] {
                    let t = choose|t: int| 0 <= t < i && #[trigger] strikes(s, before, t, q as usize);
                    assert(strikes(s, before, t, q as usize));
                }
                if strikes(s, before, i as int, q as usize) {
                    assert(struck@[q]);
                }
            }
            assert forall|q: int| 0 <= q < n implies (#[trigger] defeated@[q] <==> defeated_before(
                s,
                before,
                q as usize,
                i + 1,
            )) by {
                if defeated_before(s, before, q as usize, i + 1) {
                    let t = choose|t: int| 0 <= t < i + 1 && #[trigger] defeats(s, before, t, q as usize);
                    if t < i {
                        assert(defeated_before(s, before, q as usize, i as int));
                    }
                }
                if defeated_then[q] {
                    let t = choose|t: int| 0 <= t < i && #[trigger] defeats(s, before, t, q as usize);
                    assert(defeats(s, before, t, q as usize));
                }
                if defeats(s, before, i as int, q as usize) {
                    assert(defeated@[q]);
                }
            }
        }
        i += 1;
    }
    proof {
        assert(hit@ =~= hits(s, before));
        assert forall|q: int| 0 <= q < n implies (#[trigger] struck@[q] <==> struck_at(
            s,
            before,
            q as usize,
        )) by {
            if struck_at(s, before, q as usize) {
                let t = choose|t: int| #[trigger] strikes(s, before, t, q as usize);
                assert(0 <= t < n && strikes(s, before, t, q as usize));
            }
            if struck@[q] {
                let t = choose|t: int| 0 <= t < n && #[trigger] strikes(s, before, t, q as usize);
                assert(strikes(s, before, t, q as usize));
            }
        }
        assert forall|q: int| 0 <= q < n implies (#[trigger] defeated@[q] <==> defeated_at(
            s,
            before,
            q as usize,
        )) by {
            if defeated_at(s, before, q as usize) {
                let t = choose|t: int| #[trigger] defeats(s, before, t, q as usize);
                assert(0 <= t < n && defeats(s, before, t, q as usize));
            }
            if defeated@[q] {
                let t = choose|t: int| 0 <= t < n && #[trigger] defeats(s, before, t, q as usize);
                assert(defeats(s, before, t, q as usize));
            }
        }
    }
    let mut j: usize = 0;
    while j < n
        invariant
            j <= n,
            n == s.len(),
            scene@.len() == n,
            scene.wf(),
            well_formed(s),
            struck@.len() == n,
            defeated@.len() == n,
            forall|q: int|
                0 <= q < n ==> (#[trigger] struck@[q] <==> struck_at(s, before, q as usize)),
            forall|q: int|
                0 <= q < n ==> (#[trigger] defeated@[q] <==> defeated_at(s, before, q as usize)),
            forall|k: int| 0 <= k < j ==> scene@[k] == reacted_node(s, before, k),
            forall|k: int| j <= k < n ==> scene@[k] == s[k],
        decreases n - j,
    {
        match scene.get(j) {
            Some(node) => {
                assert(fits(s, j as int, s[j as int].unwrap()));
                match node.part {
                    Part::CactusArm(arm) => {
                        match node.parent {
                            Some(p) => {
                                if struck[p] {
                                    let mut reaction = arm.reaction;
                                    reaction.strike();
                                    scene.replace(
                                        j,
                                        Node {
                                            parent: node.parent,
                                            translation: node.translation,
                                            rotation: node.rotation,
                                            shape: node.shape,
                                            part: Part::CactusArm(
                                                CactusArm {
                                                    side: arm.side,
                                                    height: arm.height,
                                                    caps_length: arm.caps_length,
                                                    reaction,
                                                },
                                            ),
                                        },
                                    );
                                }
                            },
                            None => {},
                        }
                    },
                    Part::Pterodactyl(pterodactyl) => {
                        if defeated[j] {
                            let mut reaction = pterodactyl.reaction;
                            reaction.strike();
                            scene.replace(
                                j,
                                Node {
                                    parent: node.parent,
                                    translation: node.translation,
                                    rotation: node.rotation,
                                    shape: node.shape,
                                    part: Part::Pterodactyl(
                                        Pterodactyl {
                                            reaction,
                                            animation: AnimationIndices {
                                                first: pterodactyl.animation.first,
                                                last: PTERODACTYL_DIE_LAST_FRAME,
                                            },
                                        },
                                    ),
                                },
                            );
                        }
                    },
                    _ => {},
                }
            },
            None => {},
        }
        j += 1;
    }
    proof {
        assert(scene@ =~= reacted(s, before));
    }
    scene.sweep(&hit);
}

/// What a collision does to a generated cactus.
///
/// In a scene that ends with the nodes of a generated cactus, if the hitbox
/// of the cactus touches the player, then after the collisions of the frame
/// the hitbox is gone, both arms have started to fall from rest, and every
/// other node of the cactus is as it was.
pub proof fn lemma_struck_cactus(
    before: Seq<Option<Node>>,
    params: CactusParams,
    draws: CactusDraws,
    position: Vec2,
    player: PlayerCollider,
)
    requires
        before.len() + cactus_len(params, cactus_root(params, draws)) <= usize::MAX,
        touches(
            before + cactus_nodes(params, draws, position, before.len() as int),
            player,
            collider_slot(params, cactus_root(params, draws), before.len() as int),
        ),
    ensures
        ({
            let base = before.len() as int;
            let root = cactus_root(params, draws);
            let s = before + cactus_nodes(params, draws, position, base);
            let after = resolved(s, player);
            let hitbox = collider_slot(params, root, base);
            let first = first_arm_slot(params, root, base);
            let second = second_arm_slot(params, root, base);
            &&& after.len() == s.len()
            &&& after[hitbox] is None
            &&& after[first] == Some(
                struck_node(s[first].unwrap(), cactus_arm(draws, draws.first_arm, 1)),
            )
            &&& after[second] == Some(
                struck_node(s[second].unwrap(), cactus_arm(draws, draws.second_arm, -1)),
            )
            &&& forall|k: int|
                base <= k < s.len() && k != hitbox && k != first && k != second ==> #[trigger] after[k]
                    == s[k]
        }),
{
    let base = before.len() as int;
    let root = cactus_root(params, draws);
    let nodes = cactus_nodes(params, draws, position, base);
    let s = before + nodes;
    let hitbox = collider_slot(params, root, base);
    let trunk = trunk_slot(params, root, base);
    let first = first_arm_slot(params, root, base);
    let second = second_arm_slot(params, root, base);
    let r = reacted(s, player);
    let marks = hits(s, player);
    lemma_single_collider(params, draws, position, base);
    lemma_cactus_parts(params, draws, position, base);
    assert forall|k: int| base <= k < s.len() implies s[k] == #[trigger] nodes[k - base] by {}
    assert(s[hitbox] == nodes[hitbox - base]);
    assert(strikes(s, player, hitbox, trunk as usize));
    assert(struck_at(s, player, trunk as usize));
    assert forall|k: int| base <= k < s.len() implies (#[trigger] swept_away(r, marks, k) <==> k
        == hitbox) by {
        lemma_only_the_hitbox_goes(before, params, draws, position, player, k);
    }
    assert(s[first] == nodes[first - base]);
    assert(s[second] == nodes[second - base]);
    assert forall|k: int|
        base <= k < s.len() && k != hitbox && k != first && k != second implies #[trigger] resolved(
        s,
        player,
    )[k] == s[k] by {
        assert(s[k] == nodes[k - base]);
        assert(!swept_away(r, marks, k));
    }
    assert(!swept_away(r, marks, first));
    assert(!swept_away(r, marks, second));
    assert(swept_away(r, marks, hitbox));
}

/// Of the nodes of a generated cactus whose hitbox touches the player, the
/// collisions of the frame remove the hitbox and nothing else.
proof fn lemma_only_the_hitbox_goes(
    before: Seq<Option<Node>>,
    params: CactusParams,
    draws: CactusDraws,
    position: Vec2,
    player: PlayerCollider,
    k: int,
)
    requires
        before.len() + cactus_len(params, cactus_root(params, draws)) <= usize::MAX,
        before.len() <= k < before.len() + cactus_len(params, cactus_root(params, draws)),
        touches(
            before + cactus_nodes(params, draws, position, before.len() as int),
            player,
            collider_slot(params, cactus_root(params, draws), before.len() as int),
        ),
    ensures
        ({
            let s = before + cactus_nodes(params, draws, position, before.len() as int);
            swept_away(reacted(s, player), hits(s, player), k) <==> k == collider_slot(
                params,
                cactus_root(params, draws),
                before.len() as int,
            )
        }),
    decreases k,
{
    let base = before.len() as int;
    let nodes = cactus_nodes(params, draws, position, base);
    let s = before + nodes;
    lemma_single_collider(params, draws, position, base);
    lemma_cactus_parts(params, draws, position, base);
    assert(s[k] == nodes[k - base]);
    assert(reacted(s, player)[k] == reacted_node(s, player, k));
    if k > base {
        let p = nodes[k - base].unwrap().parent.unwrap() as int;
        lemma_only_the_hitbox_goes(before, params, draws, position, player, p);
    }
}

/// What touches the player is removed whole: after the collisions of the
/// frame, a node that touched is gone, and so is everything that hung on
/// it.
pub proof fn lemma_touched_is_removed(
    s: Seq<Option<Node>>,
    player: PlayerCollider,
    i: int,
    j: int,
)
    requires
        touches(s, player, i),
        in_subtree(s, i, j),
    ensures
        0 <= j < s.len(),
        swept_away(reacted(s, player), hits(s, player), j),
        resolved(s, player)[j] is None,
    decreases j,
{
    assert(reacted(s, player)[j] == reacted_node(s, player, j));
    if j != i {
        let p = s[j].unwrap().parent.unwrap() as int;
        lemma_touched_is_removed(s, player, i, p);
    }
}

/// Slots in which nothing touches the player leave the health as it is.
pub proof fn lemma_untouched_keeps_health(s: Seq<Option<Node>>, player: PlayerCollider, k: int)
    requires
        forall|i: int| 0 <= i < k ==> !touches(s, player, i),
    ensures
        health_after(s, player, k) == player.health,
    decreases k,
{
    if k > 0 {
        lemma_untouched_keeps_health(s, player, k - 1);
    }
}

} // verus!
