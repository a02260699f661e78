//! The scene: an arena of nodes that refer to their parents by index.
use vstd::prelude::*;
use crate::components::{
    CactusArm, CactusCollider, CactusRoot, Collider, HealthPickup, Pterodactyl,
    PterodactylCollider,
};
use crate::math::Vec3;

verus! {

/// The outline a node is drawn with.
#[derive(Clone, Copy, Debug, PartialEq, Eq, Structural)]
pub enum Shape {
    Empty,
    Rectangle { width: i64, height: i64 },
    Circle { radius: i64 },
    /// A slice of a disc that opens by `angle`.
    CircularSector { radius: i64, angle: i64 },
    /// A rectangle of the given length closed by two half discs.
    Capsule { radius: i64, length: i64 },
}

/// What a node is, with the state that belongs to its kind.
#[derive(Clone, Copy, Debug, PartialEq, Eq, Structural)]
pub enum Part {
    CactusRoot(CactusRoot),
    Cap,
    Trunk,
    Segment,
    Spike,
    CactusCollider(CactusCollider),
    CactusArm(CactusArm),
    Pterodactyl(Pterodactyl),
    PterodactylCollider(PterodactylCollider),
    HealthPickup(HealthPickup),
}

impl Part {
    /// The hitbox the part carries, if it carries one.
    pub open spec fn hitbox(self) -> Option<Collider> {
        match self {
            Part::CactusCollider(c) => Some(c.0),
            Part::PterodactylCollider(c) => Some(c.0),
            Part::HealthPickup(c) => Some(c.0),
            _ => None,
        }
    }

    /// The hitbox the part carries, if it carries one.
    pub fn collider(&self) -> (c: Option<Collider>)
        ensures
            c == self.hitbox(),
    {
        match self {
            Part::CactusCollider(c) => Some(c.0),
            Part::PterodactylCollider(c) => Some(c.0),
            Part::HealthPickup(c) => Some(c.0),
            _ => None,
        }
    }
}

/// One node of the scene. Its translation and rotation are relative to its
/// parent.
#[derive(Clone, Copy, Debug, PartialEq, Eq, Structural)]
pub struct Node {
    pub parent: Option<usize>,
    pub translation: Vec3,
    pub rotation: i64,
    pub shape: Shape,
    pub part: Part,
}

/// Whether slot `i` holds a node.
pub open spec fn alive(s: Seq<Option<Node>>, i: int) -> bool {
    0 <= i < s.len() && s[i] is Some
}

/// Whether `node` could be put into `s` at slot `i`: its parent, if it has
/// one, lives in an earlier slot.
pub open spec fn fits(s: Seq<Option<Node>>, i: int, node: Node) -> bool {
    match node.parent {
        Some(p) => p < i && alive(s, p as int),
        None => true,
    }
}

/// Every node's parent lives, in an earlier slot than the node.
pub open spec fn well_formed(s: Seq<Option<Node>>) -> bool {
    forall|j: int| alive(s, j) ==> fits(s, j, #[trigger] s[j].unwrap())
}

/// Whether `a` is `j` or one of its ancestors.
pub open spec fn in_subtree(s: Seq<Option<Node>>, a: int, j: int) -> bool
    decreases j,
{
    alive(s, j) && (j == a || match s[j].unwrap().parent {
        Some(p) => p < j && in_subtree(s, a, p as int),
        None => false,
    })
}

/// The root of the tree that node `i` belongs to: the node itself where it
/// has no parent.
pub open spec fn root_of(s: Seq<Option<Node>>, i: int) -> int
    decreases i,
{
    if alive(s, i) {
        match s[i].unwrap().parent {
            Some(p) => if p < i {
                root_of(s, p as int)
            } else {
                i
            },
            None => i,
        }
    } else {
        i
    }
}

/// Where node `i` is in the world: its translation added to that of each of
/// its ancestors, from the root down.
pub open spec fn world_translation(s: Seq<Option<Node>>, i: int) -> Vec3
    decreases i,
{
    if alive(s, i) {
        let node = s[i].unwrap();
        match node.parent {
            Some(p) => if p < i {
                world_translation(s, p as int).plus(node.translation)
            } else {
                node.translation
            },
            None => node.translation,
        }
    } else {
        Vec3::zero()
    }
}

/// Whether sweeping with `marks` removes node `j`: it is marked, or an
/// ancestor of it is.
pub open spec fn swept_away(s: Seq<Option<Node>>, marks: Seq<bool>, j: int) -> bool
    decreases j,
{
    alive(s, j) && j < marks.len() && (marks[j] || match s[j].unwrap().parent {
        Some(p) => p < j && swept_away(s, marks, p as int),
        None => false,
    })
}

/// The scene after the marked nodes and all their descendants are removed.
pub open spec fn swept(s: Seq<Option<Node>>, marks: Seq<bool>) -> Seq<Option<Node>> {
    Seq::new(s.len(), |j: int| if swept_away(s, marks, j) { None } else { s[j] })
}

/// A scene graph. Slots of removed nodes stay behind empty, so an index
/// names the same node for as long as the node lives.
pub struct Scene {
    nodes: Vec<Option<Node>>,
}

impl View for Scene {
    type V = Seq<Option<Node>>;

    closed spec fn view(&self) -> Seq<Option<Node>> {
        self.nodes@
    }
}

impl Scene {
    /// Every node's parent lives, in an earlier slot than the node.
    pub open spec fn wf(&self) -> bool {
        well_formed(self@)
    }

    /// The empty scene.
    pub fn new() -> (scene: Scene)
        ensures
            scene@ == Seq::<Option<Node>>::empty(),
            scene.wf(),
    {
        Scene { nodes: Vec::new() }
    }

    /// Number of slots, empty ones included.
    pub fn len(&self) -> (n: usize)
        ensures
            n == self@.len(),
    {
        self.nodes.len()
    }

    /// The node in slot `i`, if the slot exists and is not empty.
    pub fn get(&self, i: usize) -> (node: Option<Node>)
        ensures
            node == if i < self@.len() { self@[i as int] } else { None },
    {
        if i < self.nodes.len() {
            self.nodes[i]
        } else {
            None
        }
    }

    /// Whether slot `i` holds a node.
    pub fn is_alive(&self, i: usize) -> (b: bool)
        ensures
            b == alive(self@, i as int),
    {
        i < self.nodes.len() && self.nodes[i].is_some()
    }

    /// Whether every node's parent lives, in an earlier slot than the node.
    /// Every scene made by the functions of this type does.
    pub fn is_well_formed(&self) -> (b: bool)
        ensures
            b == self.wf(),
    {
        let n: usize = self.nodes.len();
        let mut j: usize = 0;
        while j < n
            invariant
                j <= n,
                n == self.nodes@.len(),
                forall|k: int|
                    0 <= k < j && alive(self.nodes@, k) ==> fits(
                        self.nodes@,
                        k,
                        #[trigger] self.nodes@[k].unwrap(),
                    ),
            decreases n - j,
        {
            let sound: bool = match self.nodes[j] {
                Some(node) => match node.parent {
                    Some(p) => p < j && self.nodes[p].is_some(),
                    None => true,
                },
                None => true,
            };
            if !sound {
                assert(alive(self.nodes@, j as int));
                assert(!fits(self.nodes@, j as int, self.nodes@[j as int].unwrap()));
                return false;
            }
            j += 1;
        }
        true
    }

    /// Puts `node` into a new slot at the end and returns the slot's index.
    /// A node whose parent does not live in the scene is refused.
    pub fn spawn(&mut self, node: Node) -> (index: Option<usize>)
        requires
            old(self).wf(),
        ensures
            final(self).wf(),
            fits(old(self)@, old(self)@.len() as int, node) ==> index is Some && index.unwrap()
                == old(self)@.len() && final(self)@ == old(self)@.push(Some(node)),
            !fits(old(self)@, old(self)@.len() as int, node) ==> index is None && final(self)@ == old(
                self,
            )@,
    {
        let n: usize = self.nodes.len();
        let accepted: bool = match node.parent {
            Some(p) => p < n && self.nodes[p].is_some(),
            None => true,
        };
        if accepted {
            self.nodes.push(Some(node));
            proof {
                let s = old(self)@;
                let t = self.nodes@;
                assert forall|j: int| alive(t, j) implies fits(t, j, #[trigger] t[j].unwrap()) by {
                    if j < n {
                        assert(alive(s, j));
                        assert(fits(s, j, s[j].unwrap()));
                    }
                }
            }
            Some(n)
        } else {
            None
        }
    }

    /// Puts `node` in place of the node in slot `i`. The slot must hold a
    /// node, and `node` must keep its parent.
    pub fn replace(&mut self, i: usize, node: Node)
        requires
            old(self).wf(),
            alive(old(self)@, i as int),
            node.parent == old(self)@[i as int].unwrap().parent,
        ensures
            final(self).wf(),
            final(self)@ == old(self)@.update(i as int, Some(node)),
    {
        self.nodes.set(i, Some(node));
        proof {
            let s = old(self)@;
            let t = self.nodes@;
            assert forall|j: int| alive(t, j) implies fits(t, j, #[trigger] t[j].unwrap()) by {
                assert(alive(s, j));
                assert(fits(s, j, s[j].unwrap()));
            }
        }
    }

    /// Removes every marked node together with its descendants.
    pub fn sweep(&mut self, marks: &Vec<bool>)
        requires
            old(self).wf(),
            marks@.len() == old(self)@.len(),
        ensures
            final(self).wf(),
            final(self)@ == swept(old(self)@, marks@),
    {
        let n: usize = self.nodes.len();
        let mut j: usize = 0;
        while j < n
            invariant
                j <= n,
                n == self.nodes@.len(),
                n == old(self)@.len(),
                n == marks@.len(),
                well_formed(old(self)@),
                forall|k: int| 0 <= k < j ==> self.nodes@[k] == swept(old(self)@, marks@)[k],
                forall|k: int| j <= k < n ==> self.nodes@[k] == old(self)@[k],
            decreases n - j,
        {
            let doomed: bool = match self.nodes[j] {
                Some(node) => marks[j] || match node.parent {
                    Some(p) => p < j && self.nodes[p].is_none(),
                    None => false,
                },
                None => false,
            };
            proof {
                let s = old(self)@;
                if alive(s, j as int) {
                    assert(fits(s, j as int, s[j as int].unwrap()));
                }
                assert(doomed == swept_away(s, marks@, j as int));
            }
            if doomed {
                self.nodes.set(j, None);
            }
            j += 1;
        }
        proof {
            let s = old(self)@;
            let t = self.nodes@;
            assert(t =~= swept(s, marks@));
            assert forall|k: int| alive(t, k) implies fits(t, k, #[trigger] t[k].unwrap()) by {
                assert(alive(s, k));
                assert(fits(s, k, s[k].unwrap()));
            }
        }
    }

    /// Removes node `i` together with its descendants. An index that names
    /// no node changes nothing.
    pub fn despawn(&mut self, i: usize)
        requires
            old(self).wf(),
        ensures
            final(self).wf(),
            final(self)@.len() == old(self)@.len(),
            forall|j: int|
                0 <= j < old(self)@.len() ==> #[trigger] final(self)@[j] == if in_subtree(
                    old(self)@,
                    i as int,
                    j,
                ) {
                    None
                } else {
                    old(self)@[j]
                },
    {
        let n: usize = self.nodes.len();
        let mut marks: Vec<bool> = Vec::new();
        let mut j: usize = 0;
        while j < n
            invariant
                j <= n,
                marks@.len() == j,
                forall|k: int| 0 <= k < j ==> marks@[k] == (k == i),
            decreases n - j,
        {
            marks.push(j == i);
            j += 1;
        }
        proof {
            lemma_sweep_one(self@, marks@, i as int);
        }
        self.sweep(&marks);
    }

    /// The root of the tree of every node, by slot; the slot itself for an
    /// empty slot.
    pub fn roots(&self) -> (roots: Vec<usize>)
        ensures
            roots@.len() == self@.len(),
            forall|i: int| 0 <= i < self@.len() ==> #[trigger] roots@[i] == root_of(self@, i),
            forall|i: int| 0 <= i < self@.len() ==> #[trigger] roots@[i] <= i,
    {
        let n: usize = self.nodes.len();
        let mut roots: Vec<usize> = Vec::new();
        let mut i: usize = 0;
        while i < n
            invariant
                i <= n,
                n == self.nodes@.len(),
                roots@.len() == i,
                forall|k: int| 0 <= k < i ==> #[trigger] roots@[k] == root_of(self@, k),
                forall|k: int| 0 <= k < i ==> #[trigger] roots@[k] <= k,
            decreases n - i,
        {
            let root: usize = match self.nodes[i] {
                Some(node) => match node.parent {
                    Some(p) => if p < i {
                        roots[p]
                    } else {
                        i
                    },
                    None => i,
                },
                None => i,
            };
            roots.push(root);
            i += 1;
        }
        roots
    }

    /// The place in the world of every node, by slot; the origin for an
    /// empty slot.
    pub fn world_translations(&self) -> (world: Vec<Vec3>)
        ensures
            world@.len() == self@.len(),
            forall|i: int|
                0 <= i < self@.len() ==> #[trigger] world@[i] == world_translation(self@, i),
    {
        let n: usize = self.nodes.len();
        let mut world: Vec<Vec3> = Vec::new();
        let mut i: usize = 0;
        while i < n
            invariant
                i <= n,
                n == self.nodes@.len(),
                world@.len() == i,
                forall|k: int| 0 <= k < i ==> #[trigger] world@[k] == world_translation(self@, k),
            decreases n - i,
        {
            let place: Vec3 = match self.nodes[i] {
                Some(node) => match node.parent {
                    Some(p) => if p < i {
                        world[p].add_saturating(node.translation)
                    } else {
                        node.translation
                    },
                    None => node.translation,
                },
                None => Vec3::new(0, 0, 0),
            };
            world.push(place);
            i += 1;
        }
        world
    }
}

/// With a single mark, at `a`, a sweep removes the subtree of `a`.
pub proof fn lemma_sweep_one(s: Seq<Option<Node>>, marks: Seq<bool>, a: int)
    requires
        marks.len() == s.len(),
        forall|k: int| 0 <= k < marks.len() ==> marks[k] == (k == a),
    ensures
        forall|j: int| swept_away(s, marks, j) == in_subtree(s, a, j),
{
    assert forall|j: int| swept_away(s, marks, j) == in_subtree(s, a, j) by {
        lemma_sweep_one_at(s, marks, a, j);
    }
}

proof fn lemma_sweep_one_at(s: Seq<Option<Node>>, marks: Seq<bool>, a: int, j: int)
    requires
        marks.len() == s.len(),
        forall|k: int| 0 <= k < marks.len() ==> marks[k] == (k == a),
    ensures
        swept_away(s, marks, j) == in_subtree(s, a, j),
    decreases j,
{
    if alive(s, j) {
        match s[j].unwrap().parent {
            Some(p) => {
                if p < j {
                    lemma_sweep_one_at(s, marks, a, p as int);
                }
            },
            None => {},
        }
    }
}

} // verus!
