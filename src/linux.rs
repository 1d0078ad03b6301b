//! Identity of displays reached through the X11 RandR extension.

pub mod display_info;
