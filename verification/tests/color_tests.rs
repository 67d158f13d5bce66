use color_clicker::color::{fits_totals, ColorAnalysis, ColorDetector};
use color_clicker::config::{BoxSize, Config, WindowPos, RATIO_ONE};

fn config_with_ratio(bp: u32) -> Config {
    Config { color_ratio_bp: bp, ..Config::default() }
}

#[test]
fn default_config_values() {
    let c = Config::default();
    assert_eq!(c.color_ratio_bp, 5000);
    assert_eq!(c.detection_interval_ms, 500);
    assert_eq!(c.box_size, BoxSize { width: 70, height: 35 });
    assert_eq!(c.bg_opacity, 50);
    assert_eq!(c.click_delay_ms, 5000);
    assert_eq!(c.window_pos, WindowPos { x: 100, y: 100 });
    assert_eq!(WindowPos::default(), WindowPos { x: 100, y: 100 });
}

#[test]
fn analyze_sums_whole_pixels() {
    let pixels = [10u8, 20, 30, 255, 1, 2, 3, 0, 200, 100, 50, 7];
    let a = ColorDetector::analyze_colors(&pixels, &Config::default());
    assert_eq!(
        a,
        ColorAnalysis { total_red: 211, total_green: 122, total_blue: 83, pixel_count: 3 }
    );
}

#[test]
fn analyze_ignores_trailing_partial_pixel() {
    let pixels = [0u8, 0, 255, 255, 9, 9, 9];
    let a = ColorDetector::analyze_colors(&pixels, &Config::default());
    assert_eq!(a, ColorAnalysis { total_red: 0, total_green: 0, total_blue: 255, pixel_count: 1 });
}

#[test]
fn analyze_empty_is_zero() {
    let a = ColorDetector::analyze_colors(&[], &Config::default());
    assert_eq!(a, ColorAnalysis::empty());
    let b = ColorDetector::analyze_colors(&[1, 2, 3], &Config::default());
    assert_eq!(b, ColorAnalysis::empty());
}

#[test]
fn analysis_adds_up_over_captures() {
    let p1 = [1u8, 2, 3, 4, 5, 6, 7, 8];
    let p2 = [10u8, 20, 30, 40, 50];
    let mut both = p1.to_vec();
    both.extend_from_slice(&p2);
    let c = Config::default();
    let a1 = ColorDetector::analyze_colors(&p1, &c);
    let a2 = ColorDetector::analyze_colors(&p2, &c);
    let ab = ColorDetector::analyze_colors(&both, &c);
    assert_eq!(ab.total_red, a1.total_red + a2.total_red);
    assert_eq!(ab.total_green, a1.total_green + a2.total_green);
    assert_eq!(ab.total_blue, a1.total_blue + a2.total_blue);
    assert_eq!(ab.pixel_count, a1.pixel_count + a2.pixel_count);
}

#[test]
fn should_click_at_exact_half() {
    // blue share 100 / 200 = 0.5
    let a = ColorAnalysis { total_red: 60, total_green: 40, total_blue: 100, pixel_count: 1 };
    assert!(ColorDetector::should_click(&a, &config_with_ratio(5000)));
    assert!(!ColorDetector::should_click(&a, &config_with_ratio(5001)));
    assert!(ColorDetector::should_click(&a, &config_with_ratio(4999)));
}

#[test]
fn should_click_on_black_only_with_zero_threshold() {
    let a = ColorAnalysis { total_red: 0, total_green: 0, total_blue: 0, pixel_count: 4 };
    assert!(ColorDetector::should_click(&a, &config_with_ratio(0)));
    assert!(!ColorDetector::should_click(&a, &config_with_ratio(1)));
}

#[test]
fn threshold_above_one_never_clicks() {
    let a = ColorAnalysis { total_red: 0, total_green: 0, total_blue: 1000, pixel_count: 4 };
    assert!(ColorDetector::should_click(&a, &config_with_ratio(RATIO_ONE)));
    assert!(!ColorDetector::should_click(&a, &config_with_ratio(RATIO_ONE + 1)));
    assert!(!ColorDetector::should_click(&a, &config_with_ratio(u32::MAX)));
}

#[test]
fn should_click_with_huge_totals() {
    let a = ColorAnalysis {
        total_red: u64::MAX,
        total_green: u64::MAX,
        total_blue: u64::MAX,
        pixel_count: u64::MAX / 255,
    };
    // share is exactly one third
    assert!(ColorDetector::should_click(&a, &config_with_ratio(3333)));
    assert!(!ColorDetector::should_click(&a, &config_with_ratio(3334)));
}

#[test]
fn fits_totals_by_length() {
    assert!(fits_totals(&[255u8; 64]));
    assert!(fits_totals(&[]));
}

#[test]
fn pixel_order_does_not_matter() {
    let c = Config::default();
    let p1 = [1u8, 2, 3, 4, 50, 60, 70, 80, 9, 9, 9, 9];
    let p2 = [9u8, 9, 9, 9, 1, 2, 3, 4, 50, 60, 70, 80];
    assert_eq!(ColorDetector::analyze_colors(&p1, &c), ColorDetector::analyze_colors(&p2, &c));
}

#[test]
fn repeated_capture_keeps_share() {
    let p = [10u8, 0, 30, 255, 0, 20, 50, 255];
    let twice = [p, p].concat();
    let a = ColorDetector::analyze_colors(&p, &Config::default());
    let b = ColorDetector::analyze_colors(&twice, &Config::default());
    assert_eq!(b.total_blue, 2 * a.total_blue);
    assert_eq!(b.pixel_count, 2 * a.pixel_count);
    // share 80 / 110
    for bp in [7272u32, 7273, 7274, 5000, 9000] {
        let cfg = Config { color_ratio_bp: bp, ..Config::default() };
        assert_eq!(ColorDetector::should_click(&a, &cfg), ColorDetector::should_click(&b, &cfg));
    }
}
