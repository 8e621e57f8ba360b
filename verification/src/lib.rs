//! A terminal side-scrolling platformer: a player moves left and right and
//! jumps across fixed platforms, gravity pulls it down, and a scrolling
//! viewport follows it. This crate holds the whole simulation — geometry,
//! ground detection, physics, viewport tracking, frame rendering, and the
//! game-loop state machine — each function with a verified contract. The
//! terminal itself (raw mode, key polling, screen writes) lives outside.

pub mod game;
pub mod geometry;
pub mod ground;
pub mod physics;
pub mod render;
pub mod viewport;
