//! A background agent that watches the pointer for a secret gesture traced
//! over a grid of screen cells, and the decisions that keep exactly one such
//! agent running.

pub mod geometry;
pub mod pattern;
pub mod process;
pub mod lifecycle;
pub mod status;
pub mod io;
pub mod config;
pub mod selection;
pub mod cpu_tracker;
