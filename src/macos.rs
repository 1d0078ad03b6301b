//! Capture and identity on macOS: the decisions around the native calls.

pub mod display_info;
