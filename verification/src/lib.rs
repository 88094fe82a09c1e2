//! A verified simulation core for a two-player paddle game.
//!
//! The crate models the gameplay rules — the top-level state machine, the
//! session lifecycle, scoring, ball-speed progression and paddle control —
//! as a standalone, engine-independent library. Rendering, physics solving
//! and device input are host concerns: a front end feeds the core plain
//! values (viewport size, pressed keys, collision events) and projects the
//! core's state back out.

pub mod arena;
pub mod ball;
pub mod config;
pub mod controls;
pub mod game;
pub mod menu;
pub mod movement;
pub mod score;
pub mod scoring;
pub mod session;
pub mod settings;
pub mod states;
