//! The display pipeline of a minimal image viewer: sizing the window,
//! laying decoded pixels out for presentation, and reacting to input.

pub mod config;
pub mod display;
pub mod error;
pub mod interaction;
pub mod pixels;
pub mod scale;
