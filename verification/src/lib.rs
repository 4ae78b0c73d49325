//! Bookkeeping for how the buildings of a city reach the screen.
//!
//! Three parts, none of which draws anything itself: each turns an event
//! into a new state and a list of commands for whoever owns the renderer,
//! the draw groups and the user interface.

pub mod ids;
pub mod inspector;
pub mod dict;
pub mod group;
pub mod renderer;
pub mod building;
