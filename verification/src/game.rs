//! The game loop as a state machine. Each tick decodes at most one key into
//! an input intent, then either terminates the session or runs one physics
//! step, recomputes the viewport from a fresh default window, and renders a
//! frame. Polling the key and writing the frame happen outside the library.

use vstd::prelude::*;
use crate::geometry::{Obstacle, Player, Viewport, obstacles_wf};
use crate::physics::{handle_player_movement, stepped_last_fall, stepped_player};
use crate::render::{frame_matches, render_frame};
use crate::viewport::{calculate_viewport, tracked_x, tracked_y};

verus! {

/// The fixed width of the visible window.
pub const VIEW_WIDTH: i32 = 100;

/// The fixed height of the visible window.
pub const VIEW_HEIGHT: i32 = 30;

/// The input intent of one tick, decoded from at most one key press.
#[derive(Clone, Copy, PartialEq, Eq, Structural, Debug)]
pub struct Input {
    /// Horizontal direction, in `{-1, 0, 1}`.
    pub direction_x: i32,
    /// Jump was requested this tick.
    pub jump_pressed: bool,
    /// Quit was requested this tick.
    pub quit: bool,
}

/// The loop's state: it runs until the quit key arrives, then stays
/// terminated.
#[derive(Clone, Copy, PartialEq, Eq, Structural, Debug)]
pub enum LoopState {
    Running,
    Terminated,
}

/// The intent of a tick in which no key arrived.
pub open spec fn neutral_input() -> Input {
    Input { direction_x: 0, jump_pressed: false, quit: false }
}

/// One key folded into the intent: `a` steers left, `d` steers right unless
/// the intent already steers left (then it cancels to neutral), `w` requests
/// a jump, `q` requests quitting, anything else changes nothing.
pub open spec fn key_applied(input: Input, key: char) -> Input {
    if key == 'a' {
        Input { direction_x: -1i32, jump_pressed: input.jump_pressed, quit: input.quit }
    } else if key == 'd' {
        Input {
            direction_x: if input.direction_x == -1 { 0 } else { 1 },
            jump_pressed: input.jump_pressed,
            quit: input.quit,
        }
    } else if key == 'w' {
        Input { direction_x: input.direction_x, jump_pressed: true, quit: input.quit }
    } else if key == 'q' {
        Input { direction_x: input.direction_x, jump_pressed: input.jump_pressed, quit: true }
    } else {
        input
    }
}

/// The whole intent of one tick: neutral when no key arrived within the
/// wait window, else the one key folded into the neutral intent.
pub open spec fn tick_input(key: Option<char>) -> Input {
    match key {
        None => neutral_input(),
        Some(c) => key_applied(neutral_input(), c),
    }
}

/// Folds one key into an intent, as `key_applied` says.
pub fn apply_key(input: Input, key: char) -> (r: Input)
    ensures
        r == key_applied(input, key),
{
    let mut r = input;
    if key == 'a' {
        r.direction_x = -1;
    } else if key == 'd' {
        if r.direction_x == -1 {
            r.direction_x = 0;
        } else {
            r.direction_x = 1;
        }
    } else if key == 'w' {
        r.jump_pressed = true;
    } else if key == 'q' {
        r.quit = true;
    }
    r
}

/// Decodes the at most one key of a tick, as `tick_input` says.
pub fn decode_tick_input(key: Option<char>) -> (r: Input)
    ensures
        r == tick_input(key),
{
    let neutral = Input { direction_x: 0, jump_pressed: false, quit: false };
    match key {
        None => neutral,
        Some(c) => apply_key(neutral, c),
    }
}

/// The fixed level: five platforms, rising to the right.
pub open spec fn default_obstacles() -> Seq<Obstacle> {
    seq![
        Obstacle { x: 0, y: 5, width: 10, height: 1 },
        Obstacle { x: 13, y: 5, width: 10, height: 1 },
        Obstacle { x: 26, y: 3, width: 10, height: 1 },
        Obstacle { x: 39, y: 1, width: 10, height: 1 },
        Obstacle { x: 52, y: -1i32, width: 10, height: 1 },
    ]
}

/// Builds the fixed level.
pub fn build_default_obstacles() -> (obstacles: Vec<Obstacle>)
    ensures
        obstacles@ == default_obstacles(),
{
    let mut obstacles: Vec<Obstacle> = Vec::new();
    obstacles.push(Obstacle { x: 0, y: 5, width: 10, height: 1 });
    obstacles.push(Obstacle { x: 13, y: 5, width: 10, height: 1 });
    obstacles.push(Obstacle { x: 26, y: 3, width: 10, height: 1 });
    obstacles.push(Obstacle { x: 39, y: 1, width: 10, height: 1 });
    obstacles.push(Obstacle { x: 52, y: -1, width: 10, height: 1 });
    proof {
        assert(obstacles@ =~= default_obstacles());
    }
    obstacles
}

/// The fresh window a tick starts from: origin at the world origin, fixed
/// `VIEW_WIDTH` by `VIEW_HEIGHT` size.
pub open spec fn default_viewport() -> Viewport {
    Viewport { x: 0, y: 0, width: VIEW_WIDTH, height: VIEW_HEIGHT }
}

/// Builds the fresh default window of a tick.
pub fn build_default_viewport() -> (v: Viewport)
    ensures
        v == default_viewport(),
{
    Viewport { x: 0, y: 0, width: VIEW_WIDTH, height: VIEW_HEIGHT }
}

/// One game session: the player, the fixed level, the gravity timer, and the
/// loop's state.
pub struct World {
    pub player: Player,
    pub obstacles: Vec<Obstacle>,
    pub last_fall_ms: u64,
    pub state: LoopState,
}

impl World {
    /// A session is well formed when its level is non-empty and every
    /// obstacle of it is well formed.
    pub open spec fn wf(self) -> bool {
        &&& obstacles_wf(self.obstacles@)
        &&& self.obstacles@.len() > 0
    }

    /// A fresh session: the player at the start of the fixed level, the
    /// gravity timer set to the start instant, the loop running.
    pub fn new(now_ms: u64) -> (w: World)
        ensures
            w.wf(),
            w.player == (Player { x: 0, y: 3 }),
            w.obstacles@ == default_obstacles(),
            w.last_fall_ms == now_ms,
            w.state is Running,
    {
        World {
            player: Player { x: 0, y: 3 },
            obstacles: build_default_obstacles(),
            last_fall_ms: now_ms,
            state: LoopState::Running,
        }
    }
}

/// The loop state after one tick: a running session terminates exactly when
/// the tick's intent requests quitting; a terminated one stays terminated.
pub open spec fn tick_state(state: LoopState, key: Option<char>) -> LoopState {
    match state {
        LoopState::Terminated => LoopState::Terminated,
        LoopState::Running => if tick_input(key).quit {
            LoopState::Terminated
        } else {
            LoopState::Running
        },
    }
}

/// The viewport a tick shows: the default window's size, with the origin
/// pulled after the player from the world origin.
pub open spec fn tick_viewport(player: Player) -> Viewport {
    Viewport {
        x: tracked_x(player.x as int, 0) as i32,
        y: tracked_y(player.y as int, 0) as i32,
        width: VIEW_WIDTH,
        height: VIEW_HEIGHT,
    }
}

/// One tick of the game loop. While the session runs and the key does not
/// quit: one physics step, then the viewport, then the rendered frame. On
/// the quit key the session terminates with no physics and no frame; a
/// terminated session never changes again and never renders.
pub fn game_tick(world: &mut World, key: Option<char>, now_ms: u64) -> (frame: Option<
    Vec<Vec<char>>,
>)
    requires
        old(world).wf(),
        old(world).last_fall_ms <= now_ms,
        i32::MIN + 46 <= old(world).player.x <= i32::MAX - 56,
        i32::MIN + 9 <= old(world).player.y <= i32::MAX - 26,
    ensures
        final(world).wf(),
        final(world).obstacles@ == old(world).obstacles@,
        final(world).state == tick_state(old(world).state, key),
        old(world).state is Terminated ==> *final(world) == *old(world) && frame is None,
        old(world).state is Running && tick_input(key).quit ==> ({
            &&& final(world).player == old(world).player
            &&& final(world).last_fall_ms == old(world).last_fall_ms
            &&& frame is None
        }),
        old(world).state is Running && !tick_input(key).quit ==> ({
            let input = tick_input(key);
            let next = stepped_player(
                old(world).player,
                input.direction_x,
                input.jump_pressed,
                old(world).obstacles@,
                old(world).last_fall_ms,
                now_ms,
            );
            &&& final(world).player == next
            &&& final(world).last_fall_ms == stepped_last_fall(
                old(world).player,
                input.direction_x,
                old(world).obstacles@,
                old(world).last_fall_ms,
                now_ms,
            )
            &&& frame matches Some(grid) && frame_matches(
                grid@,
                next,
                old(world).obstacles@,
                tick_viewport(next),
            )
        }),
{
    match world.state {
        LoopState::Terminated => None,
        LoopState::Running => {
            let input = decode_tick_input(key);
            if input.quit {
                world.state = LoopState::Terminated;
                None
            } else {
                let mut player = world.player;
                let mut last_fall_ms = world.last_fall_ms;
                handle_player_movement(
                    &mut player,
                    input.direction_x,
                    input.jump_pressed,
                    &world.obstacles,
                    &mut last_fall_ms,
                    now_ms,
                );
                world.player = player;
                world.last_fall_ms = last_fall_ms;
                let base = build_default_viewport();
                let view = calculate_viewport(&world.player, &base);
                let grid = render_frame(&world.player, &world.obstacles, &view);
                Some(grid)
            }
        },
    }
}

} // verus!
