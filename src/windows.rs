//! Identity of displays reached through Windows Management Instrumentation.

pub mod display_info;
