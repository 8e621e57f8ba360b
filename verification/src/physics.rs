//! Movement and physics: one tick updates the player from the input intent,
//! then applies gravity or a jump impulse, never both. Gravity is gated by a
//! wall-clock timer carried as a millisecond count, so fall speed is
//! rate-limited regardless of frame rate.

use vstd::prelude::*;
use crate::geometry::{Obstacle, Player, obstacles_wf};
use crate::ground::{on_solid_ground, check_if_solid_ground};

verus! {

/// Gravity pulls the player down at most once per this many milliseconds.
pub const GRAVITY_INTERVAL_MS: u64 = 300;

/// A jump lifts the player this many rows at once.
pub const JUMP_IMPULSE: i32 = 4;

/// The player after the unconditional horizontal move of one tick.
pub open spec fn after_horizontal(player: Player, dir: i32) -> Player
    recommends
        i32::MIN <= player.x + dir <= i32::MAX,
{
    Player { x: (player.x + dir) as i32, y: player.y }
}

/// Gravity acts this tick: the player is airborne and more than
/// `GRAVITY_INTERVAL_MS` milliseconds have passed since the last fall.
pub open spec fn gravity_applies(
    player: Player,
    obstacles: Seq<Obstacle>,
    last_fall_ms: u64,
    now_ms: u64,
) -> bool
    recommends
        last_fall_ms <= now_ms,
{
    &&& !on_solid_ground(player, obstacles)
    &&& now_ms - last_fall_ms > GRAVITY_INTERVAL_MS
}

/// The jump impulse acts this tick: the player is grounded and jump was
/// pressed. Airborne jump presses are ignored.
pub open spec fn jump_applies(player: Player, obstacles: Seq<Obstacle>, jump_pressed: bool) -> bool {
    on_solid_ground(player, obstacles) && jump_pressed
}

/// The player after one whole physics tick: the horizontal move, then either
/// one row of gravity, the jump impulse, or no vertical change. The grounded
/// branch never falls in the same tick.
pub open spec fn stepped_player(
    player: Player,
    dir: i32,
    jump_pressed: bool,
    obstacles: Seq<Obstacle>,
    last_fall_ms: u64,
    now_ms: u64,
) -> Player {
    let moved = after_horizontal(player, dir);
    if gravity_applies(moved, obstacles, last_fall_ms, now_ms) {
        Player { x: moved.x, y: (moved.y + 1) as i32 }
    } else if jump_applies(moved, obstacles, jump_pressed) {
        Player { x: moved.x, y: (moved.y - JUMP_IMPULSE) as i32 }
    } else {
        moved
    }
}

/// The last-fall timestamp after one tick: reset to now when gravity acted,
/// unchanged otherwise.
pub open spec fn stepped_last_fall(
    player: Player,
    dir: i32,
    obstacles: Seq<Obstacle>,
    last_fall_ms: u64,
    now_ms: u64,
) -> u64 {
    if gravity_applies(after_horizontal(player, dir), obstacles, last_fall_ms, now_ms) {
        now_ms
    } else {
        last_fall_ms
    }
}

/// One physics tick. Moves the player horizontally by `input_direction_x`
/// unconditionally, then, on the moved position: applies one row of gravity
/// when airborne and the timer allows, or the jump impulse when grounded and
/// jump was pressed.
pub fn handle_player_movement(
    player: &mut Player,
    input_direction_x: i32,
    jump_pressed: bool,
    obstacles: &Vec<Obstacle>,
    last_fall_ms: &mut u64,
    now_ms: u64,
)
    requires
        obstacles_wf(obstacles@),
        -1 <= input_direction_x <= 1,
        i32::MIN <= old(player).x + input_direction_x <= i32::MAX,
        old(player).y + 1 <= i32::MAX,
        old(player).y - JUMP_IMPULSE >= i32::MIN,
        *old(last_fall_ms) <= now_ms,
    ensures
        final(player).x == old(player).x + input_direction_x,
        *final(player) == stepped_player(
            *old(player),
            input_direction_x,
            jump_pressed,
            obstacles@,
            *old(last_fall_ms),
            now_ms,
        ),
        *final(last_fall_ms) == stepped_last_fall(
            *old(player),
            input_direction_x,
            obstacles@,
            *old(last_fall_ms),
            now_ms,
        ),
{
    player.x = player.x + input_direction_x;
    if !check_if_solid_ground(player, obstacles) {
        if now_ms - *last_fall_ms > GRAVITY_INTERVAL_MS {
            player.y = player.y + 1;
            *last_fall_ms = now_ms;
        }
    } else {
        if jump_pressed {
            player.y = player.y - JUMP_IMPULSE;
        }
    }
}

/// Jump only triggers while grounded: in a tick where the player is airborne
/// after the horizontal move, a pressed jump is ignored and the player's row
/// never rises; it stays or drops by the one gated gravity row.
pub proof fn lemma_jump_needs_ground(
    player: Player,
    dir: i32,
    jump_pressed: bool,
    obstacles: Seq<Obstacle>,
    last_fall_ms: u64,
    now_ms: u64,
)
    requires
        i32::MIN <= player.x + dir <= i32::MAX,
        player.y + 1 <= i32::MAX,
        last_fall_ms <= now_ms,
        !on_solid_ground(after_horizontal(player, dir), obstacles),
    ensures
        player.y
            <= stepped_player(player, dir, jump_pressed, obstacles, last_fall_ms, now_ms).y
            <= player.y + 1,
{
}

/// Gravity applies at most once per `GRAVITY_INTERVAL_MS` window: two ticks
/// no further apart than the window, with the player airborne both times,
/// drop the player's row by at most one in total.
pub proof fn lemma_gravity_rate_limited(
    player: Player,
    dir1: i32,
    dir2: i32,
    jump1: bool,
    jump2: bool,
    obstacles: Seq<Obstacle>,
    last_fall_ms: u64,
    t1_ms: u64,
    t2_ms: u64,
)
    requires
        i32::MIN <= player.x + dir1 <= i32::MAX,
        player.y + 1 <= i32::MAX,
        last_fall_ms <= t1_ms <= t2_ms,
        t2_ms - t1_ms <= GRAVITY_INTERVAL_MS,
        !on_solid_ground(after_horizontal(player, dir1), obstacles),
        ({
            let p1 = stepped_player(player, dir1, jump1, obstacles, last_fall_ms, t1_ms);
            &&& i32::MIN <= p1.x + dir2 <= i32::MAX
            &&& !on_solid_ground(after_horizontal(p1, dir2), obstacles)
        }),
    ensures
        ({
            let p1 = stepped_player(player, dir1, jump1, obstacles, last_fall_ms, t1_ms);
            let f1 = stepped_last_fall(player, dir1, obstacles, last_fall_ms, t1_ms);
            stepped_player(p1, dir2, jump2, obstacles, f1, t2_ms).y <= player.y + 1
        }),
{
}

} // verus!
