//! Detector settings.
use vstd::prelude::*;

verus! {

/// One ratio unit, in basis points: a ratio of 1.0 is `RATIO_ONE`.
pub const RATIO_ONE: u32 = 10000;

/// Position of the floating window, in whole logical points.
#[derive(Clone, Copy, Debug, PartialEq, Eq, Structural)]
pub struct WindowPos {
    pub x: i32,
    pub y: i32,
}

impl Default for WindowPos {
    fn default() -> (pos: Self)
        ensures
            pos.x == 100,
            pos.y == 100,
    {
        WindowPos { x: 100, y: 100 }
    }
}

/// Size of the detection box, in logical points.
#[derive(Clone, Copy, Debug, PartialEq, Eq, Structural)]
pub struct BoxSize {
    pub width: u32,
    pub height: u32,
}

/// Detector settings.
///
/// `color_ratio_bp` is the blue-share threshold in basis points
/// (`RATIO_ONE` stands for a share of 1.0).
#[derive(Clone, Copy, Debug, PartialEq, Eq, Structural)]
pub struct Config {
    pub color_ratio_bp: u32,
    pub detection_interval_ms: u64,
    pub box_size: BoxSize,
    pub bg_opacity: u8,
    pub click_delay_ms: u64,
    pub window_pos: WindowPos,
}

impl Config {
    /// The settings used when no configuration file exists.
    pub open spec fn spec_default() -> Config {
        Config {
            color_ratio_bp: 5000,
            detection_interval_ms: 500,
            box_size: BoxSize { width: 70, height: 35 },
            bg_opacity: 50,
            click_delay_ms: 5000,
            window_pos: WindowPos { x: 100, y: 100 },
        }
    }
}

impl Default for Config {
    fn default() -> (config: Self)
        ensures
            config == Config::spec_default(),
    {
        Config {
            color_ratio_bp: 5000,
            detection_interval_ms: 500,
            box_size: BoxSize { width: 70, height: 35 },
            bg_opacity: 50,
            click_delay_ms: 5000,
            window_pos: WindowPos::default(),
        }
    }
}

} // verus!
