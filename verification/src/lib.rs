//! The engine of a prize wheel: a circular selection over a list of
//! participants, and the state machine that lands a spin on a winner.

pub mod selection;
pub mod list;
pub mod tabs;
pub mod participant;
pub mod app;
