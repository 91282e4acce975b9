//! Sticky and staged windows for a tiling compositor.
//!
//! A window marked *sticky* follows the user to whichever workspace becomes
//! active; a *staged* window is parked on a reserved workspace and left alone
//! until it is released. This crate holds the rules of that bookkeeping. It
//! performs no I/O: every function takes what the compositor reported as plain
//! values and hands back what has to be sent to it.

pub mod business;
pub mod cli;
pub mod daemon;
pub mod error;
pub mod json;
pub mod laws;
pub mod protocol;
pub mod system_integration;
pub mod wire;
