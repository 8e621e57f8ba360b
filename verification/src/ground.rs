//! Ground detection: whether the player currently stands on a platform.

use vstd::prelude::*;
use crate::geometry::{Obstacle, Player, obstacles_wf};

verus! {

/// This obstacle supports the player: the player's row is exactly one above
/// the obstacle's top surface, and the player's column lies in
/// `[x, x + width)`.
pub open spec fn supports(obstacle: Obstacle, player: Player) -> bool {
    &&& player.y == obstacle.y - 1
    &&& obstacle.x <= player.x < obstacle.x + obstacle.width
}

/// The player stands on solid ground: some obstacle supports it.
pub open spec fn on_solid_ground(player: Player, obstacles: Seq<Obstacle>) -> bool {
    exists|i: int| 0 <= i < obstacles.len() && supports(obstacles[i], player)
}

/// Returns true iff some obstacle has `player.y == obstacle.y - 1` and
/// `player.x` in `[obstacle.x, obstacle.x + obstacle.width)`.
pub fn check_if_solid_ground(player: &Player, obstacles: &Vec<Obstacle>) -> (r: bool)
    requires
        obstacles_wf(obstacles@),
    ensures
        r == on_solid_ground(*player, obstacles@),
{
    let mut k: usize = 0;
    while k < obstacles.len()
        invariant
            k <= obstacles.len(),
            obstacles_wf(obstacles@),
            forall|i: int| 0 <= i < k ==> !supports(obstacles@[i], *player),
        decreases obstacles.len() - k,
    {
        let obs = obstacles[k];
        assert(obstacles@[k as int].wf());
        if player.y == obs.y - 1 && player.x >= obs.x && player.x < obs.x + obs.width {
            return true;
        }
        k += 1;
    }
    false
}

} // verus!
