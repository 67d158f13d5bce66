use color_clicker::app::{
    click_result, decide, evaluate_capture, needs_topmost_refresh, CaptureRequest,
    ColorClickerApp, Decision, DetectionRequest, DetectionResult, DetectionStatus, DetectionStep,
    WindowRect,
};
use color_clicker::color::ColorAnalysis;
use color_clicker::config::{Config, WindowPos};

/// `n` pure blue pixels.
fn blue(n: usize) -> Vec<u8> {
    [0u8, 0, 255, 255].repeat(n)
}

/// `n` pure red pixels.
fn red(n: usize) -> Vec<u8> {
    [255u8, 0, 0, 255].repeat(n)
}

#[test]
fn new_app_state() {
    let app = ColorClickerApp::new(Config::default());
    assert_eq!(app.config(), Config::default());
    assert_eq!((app.window_x(), app.window_y()), (200, 200));
    assert_eq!(app.analysis(), ColorAnalysis::empty());
    assert!(app.is_detecting());
    assert!(!app.auto_click_enabled());
    assert_eq!(*app.detection_status(), DetectionStatus::Running);
    assert!(app.error_message().is_empty());
    assert_eq!(app.click_count(), 0);
    assert!(!app.is_working());
    assert_eq!(app.last_click_ns(), 0);
    assert_eq!(app.pending_click_ns(), None);
}

/// `v` milliseconds in nanoseconds.
fn ms(v: u64) -> u64 {
    v * 1_000_000
}

fn request(auto_click: bool, last_click_ns: u64) -> DetectionRequest {
    DetectionRequest { config: Config::default(), auto_click, last_click_ns }
}

#[test]
fn decide_follows_threshold_switch_and_pause() {
    let c = Config::default();
    let matched = ColorAnalysis { total_red: 0, total_green: 0, total_blue: 10, pixel_count: 1 };
    let missed = ColorAnalysis { total_red: 10, total_green: 0, total_blue: 0, pixel_count: 1 };
    assert_eq!(decide(&missed, &c, true, ms(10_000)), Decision::BelowThreshold);
    assert_eq!(decide(&matched, &c, true, ms(5000)), Decision::Click);
    assert_eq!(decide(&matched, &c, true, ms(4999)), Decision::Wait);
    assert_eq!(decide(&matched, &c, false, ms(10_000)), Decision::MatchedAutoOff);
}

#[test]
fn evaluate_failed_and_empty_captures() {
    let step = evaluate_capture(Err(String::from("boom")), &request(true, 0), 0);
    assert_eq!(
        step,
        DetectionStep::Finished(DetectionResult {
            analysis: ColorAnalysis::empty(),
            status: DetectionStatus::ScreenshotFailed,
            clicked: false,
            error: Some(String::from("boom")),
            decided_ns: 0,
        })
    );
    let step = evaluate_capture(Ok(vec![]), &request(true, 0), 0);
    assert_eq!(
        step,
        DetectionStep::Finished(DetectionResult {
            analysis: ColorAnalysis::empty(),
            status: DetectionStatus::NoPixels,
            clicked: false,
            error: None,
            decided_ns: 0,
        })
    );
}

#[test]
fn evaluate_analysed_captures() {
    let blue_analysis = ColorAnalysis { total_red: 0, total_green: 0, total_blue: 510, pixel_count: 2 };
    assert_eq!(
        evaluate_capture(Ok(blue(2)), &request(true, ms(1000)), ms(6000)),
        DetectionStep::Click { analysis: blue_analysis, decided_ns: ms(6000) }
    );
    let waiting = evaluate_capture(Ok(blue(2)), &request(true, ms(1000)), ms(5999));
    assert_eq!(
        waiting,
        DetectionStep::Finished(DetectionResult {
            analysis: blue_analysis,
            status: DetectionStatus::Waiting,
            clicked: false,
            error: None,
            decided_ns: 0,
        })
    );
    match evaluate_capture(Ok(blue(2)), &request(false, 0), ms(6000)) {
        DetectionStep::Finished(r) => assert_eq!(r.status, DetectionStatus::TargetMatched),
        other => panic!("unexpected {:?}", other),
    }
    match evaluate_capture(Ok(red(3)), &request(true, 0), ms(6000)) {
        DetectionStep::Finished(r) => {
            assert_eq!(r.status, DetectionStatus::Detecting);
            assert_eq!(r.analysis.total_red, 765);
        }
        other => panic!("unexpected {:?}", other),
    }
}

#[test]
fn click_results_always_count() {
    let a = ColorAnalysis { total_red: 1, total_green: 2, total_blue: 3, pixel_count: 1 };
    let ok = click_result(a, ms(7000), Ok(()));
    assert_eq!(
        ok,
        DetectionResult { analysis: a, status: DetectionStatus::Clicked, clicked: true, error: None, decided_ns: ms(7000) }
    );
    let err = click_result(a, ms(7000), Err(String::from("no mouse")));
    assert_eq!(err.status, DetectionStatus::ClickError(String::from("no mouse")));
    assert!(err.clicked);
    assert_eq!(err.error, None);
}

#[test]
fn one_background_round_at_a_time() {
    let mut app = ColorClickerApp::new(Config::default());
    assert_eq!(app.begin_detection(), Some(request(false, 0)));
    assert!(app.is_working());
    assert_eq!(app.begin_detection(), None);
    let a = ColorAnalysis { total_red: 1, total_green: 2, total_blue: 3, pixel_count: 1 };
    let clicked = app.handle_detection_result(click_result(a, ms(5000), Err(String::from("x"))), ms(5200));
    assert!(clicked);
    assert!(!app.is_working());
    assert_eq!(app.click_count(), 1);
    assert_eq!(app.last_click_ns(), ms(5200));
    assert_eq!(app.analysis(), a);
    assert_eq!(*app.detection_status(), DetectionStatus::ClickError(String::from("x")));
    app.toggle_auto_click();
    assert_eq!(app.begin_detection(), Some(request(true, ms(5200))));
}

#[test]
fn result_errors_are_kept() {
    let mut app = ColorClickerApp::new(Config::default());
    let r = DetectionResult {
        analysis: ColorAnalysis::empty(),
        status: DetectionStatus::ScreenshotFailed,
        clicked: false,
        error: Some(String::from("no display")),
        decided_ns: 0,
    };
    assert!(!app.handle_detection_result(r, ms(100)));
    assert_eq!(app.error_message(), "no display");
    assert_eq!(app.click_count(), 0);
    let r = DetectionResult {
        analysis: ColorAnalysis::empty(),
        status: DetectionStatus::Detecting,
        clicked: false,
        error: None,
        decided_ns: 0,
    };
    app.handle_detection_result(r, ms(200));
    assert_eq!(app.last_click_ns(), 0);
    assert_eq!(app.error_message(), "no display");
    assert_eq!(*app.detection_status(), DetectionStatus::Detecting);
}

#[test]
fn toggle_switches_and_restores() {
    let mut app = ColorClickerApp::new(Config::default());
    app.toggle_auto_click();
    assert!(app.auto_click_enabled());
    assert_eq!(*app.detection_status(), DetectionStatus::AutoClickOn);
    app.toggle_auto_click();
    assert!(!app.auto_click_enabled());
    assert_eq!(*app.detection_status(), DetectionStatus::AutoClickOff);
}

#[test]
fn keys_adjust_opacity_and_threshold() {
    let mut app = ColorClickerApp::new(Config::default());
    app.handle_keys(true, true, false);
    assert_eq!(app.config().bg_opacity, 51);
    app.handle_keys(true, false, true);
    assert_eq!(app.config().bg_opacity, 50);
    app.handle_keys(false, true, false);
    assert_eq!(app.config().color_ratio_bp, 5100);
    assert_eq!(app.config().bg_opacity, 50);
    app.handle_keys(false, false, true);
    app.handle_keys(false, false, true);
    assert_eq!(app.config().color_ratio_bp, 4900);
    // both keys in one frame: up first, then down
    app.handle_keys(false, true, true);
    assert_eq!(app.config().color_ratio_bp, 4900);
}

#[test]
fn keys_stay_in_range() {
    let mut app = ColorClickerApp::new(Config { bg_opacity: 100, color_ratio_bp: 9950, ..Config::default() });
    app.handle_keys(true, true, false);
    assert_eq!(app.config().bg_opacity, 100);
    app.handle_keys(false, true, false);
    assert_eq!(app.config().color_ratio_bp, 10000);
    let mut app = ColorClickerApp::new(Config { bg_opacity: 0, color_ratio_bp: 40, ..Config::default() });
    app.handle_keys(true, false, true);
    assert_eq!(app.config().bg_opacity, 0);
    app.handle_keys(false, false, true);
    assert_eq!(app.config().color_ratio_bp, 0);
    let mut app = ColorClickerApp::new(Config { color_ratio_bp: 15000, ..Config::default() });
    app.handle_keys(false, true, false);
    assert_eq!(app.config().color_ratio_bp, 10000);
}

#[test]
fn window_position_saved_only_when_positive() {
    let mut app = ColorClickerApp::new(Config::default());
    assert!(app.record_window_position());
    assert_eq!(app.config().window_pos, WindowPos { x: 200, y: 200 });
    let mut app = ColorClickerApp::new(Config::default());
    app.record_window_origin(0, 200);
    assert!(!app.record_window_position());
    assert_eq!(app.config().window_pos, WindowPos { x: 100, y: 100 });
}

#[test]
fn topmost_refresh_every_sixty_frames() {
    assert!(needs_topmost_refresh(0));
    assert!(!needs_topmost_refresh(1));
    assert!(!needs_topmost_refresh(59));
    assert!(needs_topmost_refresh(60));
    assert!(needs_topmost_refresh(120));
}

#[test]
fn sync_detection_region_and_click_point() {
    let mut app = ColorClickerApp::new(Config::default());
    assert_eq!(app.begin_sync_detection(None), None);
    let rect = WindowRect { min_x: 300, min_y: 400, center_x: 350, max_y: 540 };
    let req = app.begin_sync_detection(Some(rect)).unwrap();
    assert_eq!(req, CaptureRequest { x: 315, y: 540, width: 70, height: 35 });
    assert_eq!((app.window_x(), app.window_y()), (300, 400));
    assert_eq!(req.click_point(), (350, 557));
}

#[test]
fn sync_detection_flow() {
    let mut app = ColorClickerApp::new(Config::default());
    // auto-click off: matched
    assert!(!app.apply_sync_capture(Ok(blue(4)), ms(10_000)));
    assert_eq!(*app.detection_status(), DetectionStatus::TargetMatched);
    assert_eq!(app.analysis().total_blue, 1020);
    app.toggle_auto_click();
    // within the pause after the start
    assert!(!app.apply_sync_capture(Ok(blue(4)), ms(4999)));
    assert_eq!(*app.detection_status(), DetectionStatus::Waiting);
    assert_eq!(app.pending_click_ns(), None);
    assert!(app.apply_sync_capture(Ok(blue(4)), ms(5000)));
    assert_eq!(*app.detection_status(), DetectionStatus::Waiting);
    assert_eq!(app.pending_click_ns(), Some(ms(5000)));
    assert!(app.finish_sync_click(Ok(()), ms(5050)));
    assert_eq!(*app.detection_status(), DetectionStatus::Clicked);
    assert_eq!(app.last_click_ns(), ms(5050));
    assert_eq!(app.pending_click_ns(), None);
    // the pause runs from the last click
    assert!(!app.apply_sync_capture(Ok(blue(4)), ms(10_049)));
    assert_eq!(*app.detection_status(), DetectionStatus::Waiting);
    assert!(app.apply_sync_capture(Ok(blue(4)), ms(10_050)));
    assert!(!app.finish_sync_click(Err(String::from("denied")), ms(10_100)));
    assert_eq!(*app.detection_status(), DetectionStatus::ClickFailed);
    assert_eq!(app.error_message(), "denied");
    // a failed click does not restart the pause
    assert_eq!(app.last_click_ns(), ms(5050));
    assert!(app.apply_sync_capture(Ok(blue(4)), ms(10_200)));
    assert!(app.finish_sync_click(Ok(()), ms(10_200)));
    // an empty capture keeps the analysis
    let before = app.analysis();
    assert!(!app.apply_sync_capture(Ok(vec![]), ms(20_000)));
    assert_eq!(*app.detection_status(), DetectionStatus::NoPixels);
    assert_eq!(app.analysis(), before);
    assert!(!app.apply_sync_capture(Err(String::from("no screen")), ms(20_000)));
    assert_eq!(*app.detection_status(), DetectionStatus::ScreenshotFailed);
    assert_eq!(app.error_message(), "no screen");
    assert!(!app.apply_sync_capture(Ok(red(1)), ms(20_000)));
    assert_eq!(*app.detection_status(), DetectionStatus::Detecting);
    app.reset_readings();
    assert_eq!(app.analysis(), ColorAnalysis::empty());
    assert!(app.error_message().is_empty());
}

#[test]
fn window_origin_is_recorded() {
    let mut app = ColorClickerApp::new(Config::default());
    app.record_window_origin(640, 480);
    assert_eq!((app.window_x(), app.window_y()), (640, 480));
    assert!(app.record_window_position());
    assert_eq!(app.config().window_pos, WindowPos { x: 640, y: 480 });
}

#[test]
fn placement_checks() {
    let app = ColorClickerApp::new(Config::default());
    let rect = WindowRect { min_x: 0, min_y: 0, center_x: i32::MIN + 10, max_y: 0 };
    assert!(!app.region_below_fits(&rect));
    let rect = WindowRect { min_x: 0, min_y: 0, center_x: 100, max_y: 0 };
    assert!(app.region_below_fits(&rect));
    let req = CaptureRequest { x: 0, y: i32::MAX - 5, width: 70, height: 35 };
    assert!(!req.click_point_is_ok());
    let req = CaptureRequest { x: 0, y: 10, width: 70, height: 35 };
    assert!(req.click_point_is_ok());
    assert_eq!(req.click_point(), (35, 27));
}

#[test]
fn settling_checks() {
    let mut app = ColorClickerApp::new(Config::default());
    assert!(!app.click_can_finish(ms(6000)));
    app.toggle_auto_click();
    assert!(app.apply_sync_capture(Ok(blue(1)), ms(6000)));
    assert!(app.click_can_finish(ms(6000)));
    assert!(!app.click_can_finish(ms(5999)));
    let a = ColorAnalysis::empty();
    assert!(app.result_fits(&click_result(a, ms(5000), Ok(())), ms(5000)));
    assert!(!app.result_fits(&click_result(a, ms(4999), Ok(())), ms(5000)));
    assert!(!app.result_fits(&click_result(a, ms(5000), Ok(())), ms(4999)));
    let plain = DetectionResult {
        analysis: a,
        status: DetectionStatus::Detecting,
        clicked: false,
        error: None,
        decided_ns: 0,
    };
    assert!(app.result_fits(&plain, 0));
}

#[test]
fn pause_is_measured_to_the_nanosecond() {
    let matched = ColorAnalysis { total_red: 0, total_green: 0, total_blue: 10, pixel_count: 1 };
    let c = Config::default();
    assert_eq!(decide(&matched, &c, true, ms(5000) - 1), Decision::Wait);
    assert_eq!(decide(&matched, &c, true, ms(5000)), Decision::Click);
    let mut app = ColorClickerApp::new(c);
    app.toggle_auto_click();
    assert!(!app.apply_sync_capture(Ok(blue(1)), ms(5000) - 1));
    assert!(app.apply_sync_capture(Ok(blue(1)), ms(5000)));
}
