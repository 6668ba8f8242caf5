//! Decision logic of a planet-walking character controller: which gravity
//! field governs a body, how keyboard keys become a movement intent, when a
//! character counts as grounded, how movement events are answered, how a
//! kinematic character reacts to a contact, and what a level node spawns.
//!
//! The floating-point geometry (vectors, rotations, velocities) is done by the
//! game around this crate; the functions here take the outcome of each such
//! comparison as a plain value and decide what happens next.
pub mod gravity;
pub mod input;
pub mod grounding;
pub mod movement;
pub mod collision;
pub mod level;
