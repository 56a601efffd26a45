//! Modal (vim-style) editing core of a terminal HTTP client: key chords and
//! their resolution to commands, per-region text buffers with cursor,
//! selection and history, and the router that sends each command to the
//! focused region.

pub mod mode;
pub mod command;
pub mod config;
pub mod keys;
pub mod text;
pub mod buffer;
pub mod regions;
pub mod events;
pub mod state;
pub mod cli;
