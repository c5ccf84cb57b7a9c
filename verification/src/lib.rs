//! Session lifecycle management and daemon supervision for a personal issue
//! tracker, with machine-checked contracts.

pub mod commands;
pub mod daemon;
pub mod store;
pub mod text;
