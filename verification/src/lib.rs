//! Verified core of a floating-box colour detector that clicks when enough
//! blue is seen under the box.

pub mod config;
pub mod color;
pub mod screen;
pub mod window;
pub mod icon;
pub mod app;
