//! Core logic of a terminal development assistant: incremental rendering of
//! streamed answers and guarded application of proposed file edits.

pub mod analyzer;
pub mod api;
pub mod assistant;
pub mod clock;
pub mod config;
pub mod handlers;
pub mod planner;
pub mod renderer;
pub mod splash;
pub mod text;
