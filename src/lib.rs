//! Display and window capture: pixel conversion, display identity resolution,
//! capture orchestration with its per-context caches, and the focused-application
//! snapshot.

pub mod active_app;
pub mod bgra_to_rgba;
pub mod cache;
pub mod capture;
pub mod edid;
pub mod error;
pub mod geometry;
pub mod linux;
pub mod macos;
pub mod monitor;
pub mod text;
pub mod window;
pub mod windows;
