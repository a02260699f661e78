//! Starting the game over.
use vstd::prelude::*;
use crate::components::{AnimationIndices, GameState, Health, INITIAL_HEALTH};
use crate::player::{Player, Stance};
use crate::scene::{swept, Node, Part, Scene};

verus! {

/// Whether the node is an obstacle or a pickup as a whole: the root of a
/// cactus, a pterodactyl, or a pickup.
pub open spec fn is_obstacle(node: Node) -> bool {
    node.part is CactusRoot || node.part is Pterodactyl || node.part is HealthPickup
}

/// For every slot, whether it holds an obstacle or a pickup as a whole.
pub open spec fn obstacles(s: Seq<Option<Node>>) -> Seq<bool> {
    Seq::new(
        s.len(),
        |j: int|
            match s[j] {
                Some(node) => is_obstacle(node),
                None => false,
            },
    )
}

/// The player as a new game finds it: running, from the first frame.
pub open spec fn revived(player: Player) -> Player {
    Player {
        translation: player.translation,
        velocity: player.velocity,
        stance: Stance::Run,
        animation: AnimationIndices { first: player.animation.first, last: 15 },
        frame: 0,
        hitbox: player.hitbox,
        hitbox_offset: player.hitbox_offset,
    }
}

/// Answers a key that went down while the game was over: the scene loses
/// every obstacle and every pickup, with all their parts, and the game runs
/// again. Where the key was the space bar, the player also gets its first
/// health back and runs again.
pub fn restart_game(scene: &mut Scene, player: &mut Player, health: &mut Health, space: bool) -> (state:
    GameState)
    requires
        old(scene).wf(),
    ensures
        final(scene).wf(),
        final(scene)@ == swept(old(scene)@, obstacles(old(scene)@)),
        *final(health) == if space {
            Health(INITIAL_HEALTH)
        } else {
            *old(health)
        },
        *final(player) == if space {
            revived(*old(player))
        } else {
            *old(player)
        },
        state == GameState::InGame,
{
    if space {
        *health = Health(INITIAL_HEALTH);
        player.stance = Stance::Run;
        player.animation = AnimationIndices { first: player.animation.first, last: 15 };
        player.frame = 0;
    }
    let n: usize = scene.len();
    let mut marks: Vec<bool> = Vec::new();
    let mut j: usize = 0;
    while j < n
        invariant
            j <= n,
            n == scene@.len(),
            marks@.len() == j,
            forall|k: int| 0 <= k < j ==> marks@[k] == obstacles(scene@)[k],
        decreases n - j,
    {
        let mark: bool = match scene.get(j) {
            Some(node) => match node.part {
                Part::CactusRoot(_) => true,
                Part::Pterodactyl(_) => true,
                Part::HealthPickup(_) => true,
                _ => false,
            },
            None => false,
        };
        marks.push(mark);
        j += 1;
    }
    proof {
        assert(marks@ =~= obstacles(scene@));
    }
    scene.sweep(&marks);
    GameState::InGame
}

/// The score: the whole seconds that the clock, in milliseconds, has run
/// since the game began at `offset`.
pub fn score(elapsed: u64, offset: u64) -> (seconds: u64)
    ensures
        seconds == if elapsed >= offset {
            (elapsed - offset) / 1000
        } else {
            0
        },
{
    if elapsed >= offset {
        (elapsed - offset) / 1000
    } else {
        0
    }
}

} // verus!
