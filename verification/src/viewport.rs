//! Viewport tracking: the visible window keeps its size and recomputes its
//! origin from the player's displacement relative to the previous origin.

use vstd::prelude::*;
use crate::geometry::{Player, Viewport};

verus! {

/// The next horizontal origin: scroll only when the player leaves the
/// columns `[5, 45]` of the window's local frame, pinning it back to the
/// nearer edge.
pub open spec fn tracked_x(player_x: int, view_x: int) -> int {
    if player_x - view_x < 5 {
        player_x - 5
    } else if player_x - view_x > 45 {
        player_x - 45
    } else {
        view_x
    }
}

/// The next vertical origin: whenever the player drifts off row 5 of the
/// window's local frame, recenter so the player sits exactly 5 rows from the
/// top. Both the "too high" and "too low" branches aim at the same value;
/// this asymmetry is deliberate and kept as is.
pub open spec fn tracked_y(player_y: int, view_y: int) -> int {
    if player_y - view_y < 5 {
        player_y - 5
    } else if player_y - view_y > 5 {
        player_y - 5
    } else {
        view_y
    }
}

/// Returns a viewport with the previous one's size and the origin pulled
/// after the player: horizontally with a `[5, 45]` dead zone, vertically
/// recentered to keep the player 5 rows from the top.
pub fn calculate_viewport(player: &Player, viewport: &Viewport) -> (r: Viewport)
    requires
        i32::MIN <= player.x - viewport.x <= i32::MAX,
        i32::MIN <= player.y - viewport.y <= i32::MAX,
        player.x - 45 >= i32::MIN,
        player.y - 5 >= i32::MIN,
    ensures
        r.width == viewport.width,
        r.height == viewport.height,
        r.x == tracked_x(player.x as int, viewport.x as int),
        r.y == tracked_y(player.y as int, viewport.y as int),
{
    let mut new_viewport = Viewport {
        x: viewport.x,
        y: viewport.y,
        width: viewport.width,
        height: viewport.height,
    };

    if player.x - viewport.x < 5 {
        new_viewport.x = player.x - 5;
    }
    if player.x - viewport.x > 45 {
        new_viewport.x = player.x - 45;
    }
    if player.y - viewport.y < 5 {
        new_viewport.y = player.y - 5;
    }
    if player.y - viewport.y > 5 {
        new_viewport.y = player.y - 5;
    }

    new_viewport
}

} // verus!
