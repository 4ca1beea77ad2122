//! A playback engine for legacy multimedia-authoring movies: a score of
//! numbered channels over a cast of media members, driven by a bytecode
//! interpreter with breakpoint support, a reference-counted heap of
//! interpreter values, and a change-notification model for host listeners.
//!
//! The player itself is a single state machine: every external command is
//! applied through one dispatch entry point, mutates the player, and yields
//! the notifications that the command emitted, in order.

pub mod breakpoints;
pub mod cast;
pub mod datum;
pub mod events;
pub mod instances;
pub mod movie;
pub mod notify;
pub mod player;
pub mod score;
