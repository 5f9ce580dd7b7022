//! Core simulation library for a 2D platformer: a kinematic character
//! controller with axis-separated collision sweeps, ground detection,
//! edge-triggered jump input, a fixed-timestep driver, and the arithmetic
//! that turns world-space boxes into screen-space quads.
//!
//! All world-space scalars are fixed-point integers (see [`math`]): one world
//! unit is [`math::SCALE`] ticks of an `i64`. The collision engine itself is
//! an external collaborator; the library computes intended motion, hands the
//! desired displacement to the caller, and resolves whatever displacement the
//! caller's sweeps allowed back into a pose, a velocity and a grounded flag.

pub mod camera;
pub mod components;
pub mod input;
pub mod math;
pub mod physics;
pub mod player_control;
pub mod rendering;
pub mod timestep;
