//! Plain geometry records of the game world: the player, the fixed platform
//! obstacles, and the viewport window, all in integer world coordinates with
//! `y` increasing downward.

use vstd::prelude::*;

verus! {

/// An axis-aligned platform rectangle. `y` is the row of its top surface and
/// `height` extends downward; a player standing on it occupies row `y - 1`.
#[derive(Clone, Copy, PartialEq, Eq, Structural, Debug)]
pub struct Obstacle {
    pub x: i32,
    pub y: i32,
    pub width: i32,
    pub height: i32,
}

/// The player, a single point in world coordinates.
#[derive(Clone, Copy, PartialEq, Eq, Structural, Debug)]
pub struct Player {
    pub x: i32,
    pub y: i32,
}

/// The world-coordinate origin and size of the window shown on screen.
#[derive(Clone, Copy, PartialEq, Eq, Structural, Debug)]
pub struct Viewport {
    pub x: i32,
    pub y: i32,
    pub width: i32,
    pub height: i32,
}

impl Obstacle {
    /// An obstacle is well formed when its extent is non-negative and the
    /// rows and columns it touches stay within `i32`: its right edge
    /// `x + width`, its bottom surface row `y + height`, and the standing
    /// row `y - 1`.
    pub open spec fn wf(self) -> bool {
        &&& self.width >= 0
        &&& self.height >= 0
        &&& self.x + self.width <= i32::MAX
        &&& self.y + self.height <= i32::MAX
        &&& self.y - 1 >= i32::MIN
    }
}

/// Every obstacle of a level is well formed.
pub open spec fn obstacles_wf(obstacles: Seq<Obstacle>) -> bool {
    forall|i: int| 0 <= i < obstacles.len() ==> #[trigger] obstacles[i].wf()
}

} // verus!
