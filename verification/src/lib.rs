//! Verified decision logic of an interactive 2D physics sandbox.
//!
//! The numeric simulation (forces, integration, collision geometry) works on
//! `f32` values and lives with the rendering and input plumbing in `app/`.
//! This crate holds what the sandbox decides on exact values:
//!
//! * [`controls`]: the keyboard/mouse state machine (gravity adjustments in
//!   whole px/s², the debug toggle, and the actions a frame's input asks for);
//! * [`schedule`]: the order in which the physics stages run each frame;
//! * [`scene`]: the layout of the initial scene and of the "explosion" ring.

pub mod controls;
pub mod scene;
pub mod schedule;
