use platformer::game::{
    apply_key, build_default_obstacles, decode_tick_input, game_tick, Input, LoopState, World,
};
use platformer::geometry::{Obstacle, Player};

fn neutral() -> Input {
    Input { direction_x: 0, jump_pressed: false, quit: false }
}

#[test]
fn default_level_matches_the_fixed_layout() {
    let obstacles = build_default_obstacles();
    let expected = vec![
        Obstacle { x: 0, y: 5, width: 10, height: 1 },
        Obstacle { x: 13, y: 5, width: 10, height: 1 },
        Obstacle { x: 26, y: 3, width: 10, height: 1 },
        Obstacle { x: 39, y: 1, width: 10, height: 1 },
        Obstacle { x: 52, y: -1, width: 10, height: 1 },
    ];
    assert_eq!(obstacles, expected);
}

#[test]
fn fresh_world_starts_running_at_the_origin_platform() {
    let w = World::new(7);
    assert_eq!(w.player, Player { x: 0, y: 3 });
    assert_eq!(w.last_fall_ms, 7);
    assert_eq!(w.state, LoopState::Running);
    assert_eq!(w.obstacles.len(), 5);
}

#[test]
fn key_a_steers_left() {
    let r = apply_key(neutral(), 'a');
    assert_eq!(r, Input { direction_x: -1, jump_pressed: false, quit: false });
}

#[test]
fn key_d_steers_right() {
    let r = apply_key(neutral(), 'd');
    assert_eq!(r, Input { direction_x: 1, jump_pressed: false, quit: false });
}

#[test]
fn key_d_cancels_an_intent_already_steering_left() {
    let left = apply_key(neutral(), 'a');
    let r = apply_key(left, 'd');
    assert_eq!(r, Input { direction_x: 0, jump_pressed: false, quit: false });
}

#[test]
fn key_w_requests_a_jump() {
    let r = apply_key(neutral(), 'w');
    assert_eq!(r, Input { direction_x: 0, jump_pressed: true, quit: false });
}

#[test]
fn key_q_requests_quitting() {
    let r = apply_key(neutral(), 'q');
    assert_eq!(r, Input { direction_x: 0, jump_pressed: false, quit: true });
}

#[test]
fn unknown_keys_and_silence_are_neutral() {
    assert_eq!(apply_key(neutral(), 'z'), neutral());
    assert_eq!(decode_tick_input(None), neutral());
    assert_eq!(decode_tick_input(Some('d')).direction_x, 1);
}

#[test]
fn quit_key_terminates_without_physics_or_render() {
    let mut w = World::new(0);
    let frame = game_tick(&mut w, Some('q'), 10);
    assert!(frame.is_none());
    assert_eq!(w.state, LoopState::Terminated);
    assert_eq!(w.player, Player { x: 0, y: 3 });
    assert_eq!(w.last_fall_ms, 0);
}

#[test]
fn terminated_world_never_ticks_again() {
    let mut w = World::new(0);
    game_tick(&mut w, Some('q'), 10);
    let frame = game_tick(&mut w, Some('d'), 500);
    assert!(frame.is_none());
    assert_eq!(w.state, LoopState::Terminated);
    assert_eq!(w.player, Player { x: 0, y: 3 });
    assert_eq!(w.last_fall_ms, 0);
}

#[test]
fn running_tick_renders_the_scrolled_window() {
    let mut w = World::new(0);
    let frame = game_tick(&mut w, None, 10).expect("a running tick renders");
    // No gravity yet (10 ms into the window), so the player stays at (0,3).
    assert_eq!(w.player, Player { x: 0, y: 3 });
    assert_eq!(w.state, LoopState::Running);
    assert_eq!(frame.len(), 30);
    assert_eq!(frame[0].len(), 100);
    // The viewport recenters to (-5,-2), so the player shows at row 5,
    // column 5, and the first platform's top surface (world row 5) at row 7.
    assert_eq!(frame[5][5], 'P');
    assert_eq!(frame[7][5], 'X');
    assert_eq!(frame[8][5], 'X');
    assert_eq!(frame[0][0], '.');
}

#[test]
fn ticks_walk_fall_and_jump_in_sequence() {
    let mut w = World::new(0);
    // Gravity lands the player on the first platform.
    game_tick(&mut w, None, 301);
    assert_eq!(w.player, Player { x: 0, y: 4 });
    assert_eq!(w.last_fall_ms, 301);
    // Grounded, a jump lifts four rows at once.
    game_tick(&mut w, Some('w'), 400);
    assert_eq!(w.player, Player { x: 0, y: 0 });
    // Airborne again: a walk still moves, gravity waits for its window.
    game_tick(&mut w, Some('d'), 450);
    assert_eq!(w.player, Player { x: 1, y: 0 });
    // Once the window elapses the fall resumes.
    game_tick(&mut w, None, 700);
    assert_eq!(w.player, Player { x: 1, y: 1 });
    assert_eq!(w.last_fall_ms, 700);
}
