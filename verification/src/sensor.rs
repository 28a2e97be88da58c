//! The per-sensor debounce machinery and its collaborators.

pub mod buffer;
pub mod config;
pub mod hardware;
pub mod model;
pub mod motion;
