//! The detector's state and the decisions it takes between captures and
//! clicks. Capturing, clicking, clocks and drawing happen outside; they hand
//! their outcomes to these functions and perform the actions they return.
use vstd::prelude::*;
use crate::color::{ColorAnalysis, ColorDetector, spec_analysis, totals_fit};
use crate::config::{Config, WindowPos, RATIO_ONE};
use crate::screen::as_signed;

verus! {

/// What the detector shows as its status line.
#[derive(Debug, PartialEq, Eq)]
pub enum DetectionStatus {
    /// Detection has started.
    Running,
    /// The capture held no byte.
    NoPixels,
    /// The screen could not be captured.
    ScreenshotFailed,
    /// A click was sent.
    Clicked,
    /// A click was attempted and failed with this message.
    ClickError(String),
    /// A click failed; the message is in the error line.
    ClickFailed,
    /// The target matched but the pause between clicks has not run out.
    Waiting,
    /// The target matched while auto-click is off.
    TargetMatched,
    /// The target does not match.
    Detecting,
    /// Auto-click was switched on.
    AutoClickOn,
    /// Auto-click was switched off.
    AutoClickOff,
}

/// What to do about one analysed capture.
#[derive(Clone, Copy, Debug, PartialEq, Eq, Structural)]
pub enum Decision {
    /// Click now.
    Click,
    /// The target matched; wait for the pause between clicks to run out.
    Wait,
    /// The target matched but auto-click is off.
    MatchedAutoOff,
    /// The blue share is below the threshold.
    BelowThreshold,
}

/// The pause between clicks, in nanoseconds.
pub open spec fn pause_ns(config: Config) -> int {
    config.click_delay_ms * 1_000_000
}

/// The decision for an analysis, given whether auto-click is on and how many
/// nanoseconds have passed since the last click.
pub open spec fn spec_decide(a: ColorAnalysis, config: Config, auto_click: bool, since_last_click_ns: u64) -> Decision {
    if !a.blue_share_reaches(config.color_ratio_bp as int) {
        Decision::BelowThreshold
    } else if auto_click && since_last_click_ns >= pause_ns(config) {
        Decision::Click
    } else if auto_click {
        Decision::Wait
    } else {
        Decision::MatchedAutoOff
    }
}

/// Decides what to do about an analysed capture.
pub fn decide(analysis: &ColorAnalysis, config: &Config, auto_click: bool, since_last_click_ns: u64) -> (d: Decision)
    ensures
        d == spec_decide(*analysis, *config, auto_click, since_last_click_ns),
        d == decision_by_fields(*analysis, *config, auto_click, since_last_click_ns),
{
    if !ColorDetector::should_click(analysis, config) {
        Decision::BelowThreshold
    } else if auto_click && since_last_click_ns as u128 >= config.click_delay_ms as u128 * 1_000_000 {
        Decision::Click
    } else if auto_click {
        Decision::Wait
    } else {
        Decision::MatchedAutoOff
    }
}

/// The outcome of one detection round, handed back to the detector state.
#[derive(Debug, PartialEq, Eq)]
///
/// `decided_ns` is when the click of a clicked round was decided, in
/// nanoseconds of the detector's clock (0 when the round did not click).
pub struct DetectionResult {
    pub analysis: ColorAnalysis,
    pub status: DetectionStatus,
    pub clicked: bool,
    pub error: Option<String>,
    pub decided_ns: u64,
}

/// What a background round needs to know of the detector: the settings,
/// whether auto-click is on, and when the last click was made (nanoseconds
/// of the detector's clock).
#[derive(Clone, Copy, Debug, PartialEq, Eq, Structural)]
pub struct DetectionRequest {
    pub config: Config,
    pub auto_click: bool,
    pub last_click_ns: u64,
}

/// The next step of a detection round.
#[derive(Debug, PartialEq, Eq)]
pub enum DetectionStep {
    /// The round is over with this result.
    Finished(DetectionResult),
    /// Click on the target, then finish with `click_result`; the click was
    /// decided at `decided_ns`.
    Click { analysis: ColorAnalysis, decided_ns: u64 },
}

/// The status that a decision other than `Click` leaves.
pub open spec fn status_of(d: Decision) -> DetectionStatus {
    match d {
        Decision::Click => DetectionStatus::Clicked,
        Decision::Wait => DetectionStatus::Waiting,
        Decision::MatchedAutoOff => DetectionStatus::TargetMatched,
        Decision::BelowThreshold => DetectionStatus::Detecting,
    }
}

/// The analysis of no pixel.
pub open spec fn zero_analysis() -> ColorAnalysis {
    ColorAnalysis { total_red: 0, total_green: 0, total_blue: 0, pixel_count: 0 }
}

/// A finished round that clicked nothing.
pub open spec fn finished(a: ColorAnalysis, status: DetectionStatus, error: Option<String>) -> DetectionStep {
    DetectionStep::Finished(DetectionResult { analysis: a, status, clicked: false, error, decided_ns: 0 })
}

/// The captures that can be analysed: a failure, or pixels whose channel
/// sums fit the 64-bit totals.
pub open spec fn capture_ok(capture: Result<Vec<u8>, String>) -> bool {
    capture matches Ok(p) ==> totals_fit(p@)
}

/// Takes the decisions of one detection round on the capture of the
/// detection box: a failed capture or an empty one finishes the round; else
/// the pixels are analysed and the round either finishes with the decision's
/// status or asks for a click. `now_ns` is the time of the decision on the
/// detector's clock.
pub fn evaluate_capture(capture: Result<Vec<u8>, String>, request: &DetectionRequest, now_ns: u64) -> (step: DetectionStep)
    requires
        capture_ok(capture),
        now_ns >= request.last_click_ns,
    ensures
        match capture {
            Err(e) => step == finished(zero_analysis(), DetectionStatus::ScreenshotFailed, Some(e)),
            Ok(p) => if p@.len() == 0 {
                step == finished(zero_analysis(), DetectionStatus::NoPixels, None)
            } else {
                let a = spec_analysis(p@);
                let d = spec_decide(a, request.config, request.auto_click, (now_ns - request.last_click_ns) as u64);
                if d == Decision::Click {
                    step == (DetectionStep::Click { analysis: a, decided_ns: now_ns })
                } else {
                    step == finished(a, status_of(d), None)
                }
            },
        },
{
    match capture {
        Err(e) => DetectionStep::Finished(DetectionResult {
            analysis: ColorAnalysis::empty(),
            status: DetectionStatus::ScreenshotFailed,
            clicked: false,
            error: Some(e),
            decided_ns: 0,
        }),
        Ok(pixels) => {
            if pixels.len() == 0 {
                return DetectionStep::Finished(DetectionResult {
                    analysis: ColorAnalysis::empty(),
                    status: DetectionStatus::NoPixels,
                    clicked: false,
                    error: None,
                    decided_ns: 0,
                });
            }
            let config = &request.config;
            let analysis = ColorDetector::analyze_colors(pixels.as_slice(), config);
            let since: u64 = now_ns - request.last_click_ns;
            let status = match decide(&analysis, config, request.auto_click, since) {
                Decision::Click => {
                    return DetectionStep::Click { analysis, decided_ns: now_ns };
                },
                Decision::Wait => DetectionStatus::Waiting,
                Decision::MatchedAutoOff => DetectionStatus::TargetMatched,
                Decision::BelowThreshold => DetectionStatus::Detecting,
            };
            DetectionStep::Finished(DetectionResult { analysis, status, clicked: false, error: None, decided_ns: 0 })
        },
    }
}

/// Finishes a round that clicked: the click counts as made whether or not it
/// succeeded, and a failure's message goes into the status.
pub fn click_result(analysis: ColorAnalysis, decided_ns: u64, outcome: Result<(), String>) -> (r: DetectionResult)
    ensures
        r.analysis == analysis,
        r.decided_ns == decided_ns,
        r.clicked,
        r.error is None,
        match outcome {
            Ok(_) => r.status == DetectionStatus::Clicked,
            Err(e) => r.status == DetectionStatus::ClickError(e),
        },
{
    let status = match outcome {
        Ok(_) => DetectionStatus::Clicked,
        Err(e) => DetectionStatus::ClickError(e),
    };
    DetectionResult { analysis, status, clicked: true, error: None, decided_ns }
}

/// Whether the window level is to be raised again on frame number `frame`:
/// once every 60 frames, starting with the first.
pub fn needs_topmost_refresh(frame: usize) -> (b: bool)
    ensures
        b == (frame % 60 == 0),
{
    frame % 60 == 0
}

/// Half of `v`, rounded toward zero.
pub open spec fn half_toward_zero(v: int) -> int {
    if v >= 0 { v / 2 } else { -((-v) / 2) }
}

fn half_of(v: i32) -> (h: i32)
    ensures
        h == half_toward_zero(v as int),
{
    if v >= 0 {
        v / 2
    } else {
        let m: i64 = -(v as i64);
        -((m / 2) as i32)
    }
}

fn wrap_signed(v: u32) -> (s: i32)
    ensures
        s == as_signed(v),
{
    if v <= 0x7fff_ffff {
        v as i32
    } else {
        ((v - 0x8000_0000) as i32) - 0x7fff_ffff - 1
    }
}

/// Where the detector's window lies on the screen, in whole pixels: its top
/// left corner, its horizontal centre and its bottom edge.
#[derive(Clone, Copy, Debug, PartialEq, Eq, Structural)]
pub struct WindowRect {
    pub min_x: i32,
    pub min_y: i32,
    pub center_x: i32,
    pub max_y: i32,
}

/// A region of the screen to capture.
#[derive(Clone, Copy, Debug, PartialEq, Eq, Structural)]
pub struct CaptureRequest {
    pub x: i32,
    pub y: i32,
    pub width: u32,
    pub height: u32,
}

impl CaptureRequest {
    /// The click point lies within `i32`.
    pub open spec fn click_point_fits(self) -> bool {
        i32::MIN <= self.y + half_toward_zero(as_signed(self.height)) <= i32::MAX
            && i32::MIN <= self.x + half_toward_zero(as_signed(self.width)) <= i32::MAX
    }

    /// Whether the click point lies within `i32`.
    pub fn click_point_is_ok(&self) -> (b: bool)
        ensures
            b == self.click_point_fits(),
    {
        let w: i32 = wrap_signed(self.width);
        let h: i32 = wrap_signed(self.height);
        let cx: i64 = self.x as i64 + half_of(w) as i64;
        let cy: i64 = self.y as i64 + half_of(h) as i64;
        cy >= -0x8000_0000 && cy <= 0x7fff_ffff && cx >= -0x8000_0000 && cx <= 0x7fff_ffff
    }

    /// The point to click in a captured region: its centre.
    pub fn click_point(&self) -> (p: (i32, i32))
        requires
            self.click_point_fits(),
        ensures
            p.0 == self.x + half_toward_zero(as_signed(self.width)),
            p.1 == self.y + half_toward_zero(as_signed(self.height)),
    {
        let w: i32 = wrap_signed(self.width);
        let h: i32 = wrap_signed(self.height);
        (self.x + half_of(w), self.y + half_of(h))
    }
}

/// The region below the window that the detector captures: as wide and
/// high as the detection box, centred under the window.
pub open spec fn region_below(rect: WindowRect, config: Config) -> CaptureRequest {
    CaptureRequest {
        x: (rect.center_x - half_toward_zero(as_signed(config.box_size.width))) as i32,
        y: rect.max_y,
        width: config.box_size.width,
        height: config.box_size.height,
    }
}

/// The state after switching auto-click: the switch flips and the status
/// shows its new position.
pub open spec fn toggled(app: AppView) -> AppView {
    AppView {
        auto_click_enabled: !app.auto_click_enabled,
        detection_status: if !app.auto_click_enabled {
            DetectionStatus::AutoClickOn
        } else {
            DetectionStatus::AutoClickOff
        },
        ..app
    }
}

/// The background opacity after the arrow keys, with Ctrl held: up adds one
/// percent, at most 100; then down takes one away, at least 0.
pub open spec fn opacity_after_keys(o: u8, up: bool, down: bool) -> u8 {
    let raised: int = if up { if o + 1 <= 100 { o + 1 } else { 100 } } else { o as int };
    (if down { if raised >= 1 { raised - 1 } else { 0 } } else { raised }) as u8
}

/// The blue threshold after the arrow keys, without Ctrl: up adds one
/// hundredth, at most one; then down takes one hundredth away, at least 0.
pub open spec fn ratio_after_keys(r: u32, up: bool, down: bool) -> u32 {
    let raised: int = if up { if r + 100 <= RATIO_ONE { r + 100 } else { RATIO_ONE as int } } else { r as int };
    (if down { if raised >= 100 { raised - 100 } else { 0 } } else { raised }) as u32
}

/// The state after the arrow keys.
pub open spec fn after_keys(app: AppView, ctrl: bool, up: bool, down: bool) -> AppView {
    AppView {
        config: if ctrl {
            Config { bg_opacity: opacity_after_keys(app.config.bg_opacity, up, down), ..app.config }
        } else {
            Config { color_ratio_bp: ratio_after_keys(app.config.color_ratio_bp, up, down), ..app.config }
        },
        ..app
    }
}

/// A background round can start: none is under way and detection is on.
pub open spec fn can_begin(app: AppView) -> bool {
    !app.is_working && app.is_detecting
}

/// The state after asking for a background round: a round is under way if
/// one was or one starts.
pub open spec fn after_begin(app: AppView) -> AppView {
    AppView { is_working: app.is_working || can_begin(app), ..app }
}

/// The state after taking in the result of a background round.
pub open spec fn after_result(app: AppView, r: DetectionResult, now_ns: u64) -> AppView {
    AppView {
        is_working: false,
        last_click_ns: if r.clicked { now_ns } else { app.last_click_ns },
        analysis: r.analysis,
        detection_status: r.status,
        click_count: (app.click_count + if r.clicked { 1int } else { 0 }) as u64,
        error_message: match r.error {
            Some(e) => e,
            None => app.error_message,
        },
        ..app
    }
}

/// The state on exit: the window position goes into the settings when both
/// coordinates are positive.
pub open spec fn after_exit(app: AppView) -> AppView {
    if app.window_x > 0 && app.window_y > 0 {
        AppView {
            config: Config { window_pos: WindowPos { x: app.window_x, y: app.window_y }, ..app.config },
            ..app
        }
    } else {
        app
    }
}

/// A step of the detector keeps the pause between clicks: the pause length
/// stays the same; a step that clicks at `now_ns` does so at least the pause
/// after the last click and records `now_ns` as the last click; any other
/// step leaves the last click as it was.
pub open spec fn click_step_ok(before: AppView, after: AppView, now_ns: u64, clicked: bool) -> bool {
    &&& after.config.click_delay_ms == before.config.click_delay_ms
    &&& if clicked {
        now_ns >= before.last_click_ns + pause_ns(before.config) && after.last_click_ns == now_ns
    } else {
        after.last_click_ns == before.last_click_ns
    }
}

/// The state of the detector window.
///
/// Times are nanoseconds of the detector's clock, which starts with the
/// detector: `last_click_ns` is when the last click was made (0 before any),
/// and `pending_click_ns` is when a click was decided that is still to be
/// made.
pub struct AppView {
    pub config: Config,
    pub window_x: i32,
    pub window_y: i32,
    pub analysis: ColorAnalysis,
    pub is_detecting: bool,
    pub auto_click_enabled: bool,
    pub detection_status: DetectionStatus,
    pub error_message: String,
    pub click_count: u64,
    pub is_working: bool,
    pub last_click_ns: u64,
    pub pending_click_ns: Option<u64>,
}


/// The detector window's state; its fields are reached through its view
/// and the getters, and changed only by the methods below.
pub struct ColorClickerApp {
    config: Config,
    window_x: i32,
    window_y: i32,
    analysis: ColorAnalysis,
    is_detecting: bool,
    auto_click_enabled: bool,
    detection_status: DetectionStatus,
    error_message: String,
    click_count: u64,
    is_working: bool,
    last_click_ns: u64,
    pending_click_ns: Option<u64>,
}

impl View for ColorClickerApp {
    type V = AppView;

    closed spec fn view(&self) -> AppView {
        AppView {
            config: self.config,
            window_x: self.window_x,
            window_y: self.window_y,
            analysis: self.analysis,
            is_detecting: self.is_detecting,
            auto_click_enabled: self.auto_click_enabled,
            detection_status: self.detection_status,
            error_message: self.error_message,
            click_count: self.click_count,
            is_working: self.is_working,
            last_click_ns: self.last_click_ns,
            pending_click_ns: self.pending_click_ns,
        }
    }
}

impl ColorClickerApp {
    /// The `config` of the state.
    pub fn config(&self) -> (r: Config)
        ensures
            r == self@.config,
    {
        self.config
    }

    /// The `window_x` of the state.
    pub fn window_x(&self) -> (r: i32)
        ensures
            r == self@.window_x,
    {
        self.window_x
    }

    /// The `window_y` of the state.
    pub fn window_y(&self) -> (r: i32)
        ensures
            r == self@.window_y,
    {
        self.window_y
    }

    /// The `analysis` of the state.
    pub fn analysis(&self) -> (r: ColorAnalysis)
        ensures
            r == self@.analysis,
    {
        self.analysis
    }

    /// The `is_detecting` of the state.
    pub fn is_detecting(&self) -> (r: bool)
        ensures
            r == self@.is_detecting,
    {
        self.is_detecting
    }

    /// The `auto_click_enabled` of the state.
    pub fn auto_click_enabled(&self) -> (r: bool)
        ensures
            r == self@.auto_click_enabled,
    {
        self.auto_click_enabled
    }

    /// The `detection_status` of the state.
    pub fn detection_status(&self) -> (r: &DetectionStatus)
        ensures
            *r == self@.detection_status,
    {
        &self.detection_status
    }

    /// The `error_message` of the state.
    pub fn error_message(&self) -> (r: &String)
        ensures
            *r == self@.error_message,
    {
        &self.error_message
    }

    /// The `click_count` of the state.
    pub fn click_count(&self) -> (r: u64)
        ensures
            r == self@.click_count,
    {
        self.click_count
    }

    /// The `is_working` of the state.
    pub fn is_working(&self) -> (r: bool)
        ensures
            r == self@.is_working,
    {
        self.is_working
    }

    /// The `last_click_ns` of the state.
    pub fn last_click_ns(&self) -> (r: u64)
        ensures
            r == self@.last_click_ns,
    {
        self.last_click_ns
    }

    /// The `pending_click_ns` of the state.
    pub fn pending_click_ns(&self) -> (r: Option<u64>)
        ensures
            r == self@.pending_click_ns,
    {
        self.pending_click_ns
    }

    /// A detector that runs with `config`, auto-click off.
    pub fn new(config: Config) -> (app: Self)
        ensures
            app@.config == config,
            app@.window_x == 200,
            app@.window_y == 200,
            app@.analysis == zero_analysis(),
            app@.is_detecting,
            !app@.auto_click_enabled,
            app@.detection_status == DetectionStatus::Running,
            app@.error_message@.len() == 0,
            app@.click_count == 0,
            !app@.is_working,
            app@.last_click_ns == 0,
            app@.pending_click_ns is None,
    {
        ColorClickerApp {
            config,
            window_x: 200,
            window_y: 200,
            analysis: ColorAnalysis::empty(),
            is_detecting: true,
            auto_click_enabled: false,
            detection_status: DetectionStatus::Running,
            error_message: String::new(),
            click_count: 0,
            is_working: false,
            last_click_ns: 0,
            pending_click_ns: None,
        }
    }

    /// Starts a background detection round unless one is under way or
    /// detection is off; returns what the round needs to know when one was
    /// started.
    pub fn begin_detection(&mut self) -> (req: Option<DetectionRequest>)
        ensures
            req is Some == can_begin(old(self)@),
            req matches Some(q) ==> q == (DetectionRequest {
                config: old(self)@.config,
                auto_click: old(self)@.auto_click_enabled,
                last_click_ns: old(self)@.last_click_ns,
            }),
            final(self)@ == after_begin(old(self)@),
            click_step_ok(old(self)@, final(self)@, 0, false),
    {
        if self.is_working || !self.is_detecting {
            return None;
        }
        self.is_working = true;
        Some(DetectionRequest {
            config: self.config,
            auto_click: self.auto_click_enabled,
            last_click_ns: self.last_click_ns,
        })
    }

    /// Takes in the result of a background round: shows its analysis and
    /// status, counts its click and keeps its error message; the round is
    /// over. A round that clicked (or tried to) counts as a click made at
    /// `now_ns`. Returns whether the round clicked.
    pub fn handle_detection_result(&mut self, result: DetectionResult, now_ns: u64) -> (clicked: bool)
        requires
            result.clicked ==> old(self)@.click_count < u64::MAX,
            result.clicked ==> result.decided_ns >= old(self)@.last_click_ns + pause_ns(old(self)@.config),
            result.clicked ==> now_ns >= result.decided_ns,
        ensures
            clicked == result.clicked,
            final(self)@ == after_result(old(self)@, result, now_ns),
            click_step_ok(old(self)@, final(self)@, now_ns, result.clicked),
            final(self)@.analysis == result.analysis,
            final(self)@.detection_status == result.status,
            final(self)@.click_count == old(self)@.click_count + (if result.clicked { 1int } else { 0 }),
            !final(self)@.is_working,
    {
        self.is_working = false;
        if result.clicked {
            self.last_click_ns = now_ns;
        }
        self.analysis = result.analysis;
        self.detection_status = result.status;
        if result.clicked {
            self.click_count = self.click_count + 1;
        }
        match result.error {
            Some(e) => {
                self.error_message = e;
            },
            None => {},
        }
        result.clicked
    }

    /// Switches auto-click on or off and shows which.
    pub fn toggle_auto_click(&mut self)
        ensures
            final(self)@ == toggled(old(self)@),
            click_step_ok(old(self)@, final(self)@, 0, false),
    {
        self.auto_click_enabled = !self.auto_click_enabled;
        self.detection_status = if self.auto_click_enabled {
            DetectionStatus::AutoClickOn
        } else {
            DetectionStatus::AutoClickOff
        };
    }

    /// Arrow keys: with Ctrl held they raise or lower the background opacity
    /// by one percent within 0 to 100; without, they raise or lower the blue
    /// threshold by one hundredth within 0 to 1. An up press is applied
    /// before a down press.
    pub fn handle_keys(&mut self, ctrl: bool, up: bool, down: bool)
        ensures
            final(self)@ == after_keys(old(self)@, ctrl, up, down),
            click_step_ok(old(self)@, final(self)@, 0, false),
    {
        if ctrl {
            if up {
                let o: u8 = self.config.bg_opacity;
                self.config.bg_opacity = if o >= 100 { 100 } else { o + 1 };
            }
            if down {
                let o: u8 = self.config.bg_opacity;
                self.config.bg_opacity = if o >= 1 { o - 1 } else { 0 };
            }
        } else {
            if up {
                let r: u32 = self.config.color_ratio_bp;
                self.config.color_ratio_bp = if r >= RATIO_ONE - 100 { RATIO_ONE } else { r + 100 };
            }
            if down {
                let r: u32 = self.config.color_ratio_bp;
                self.config.color_ratio_bp = if r >= 100 { r - 100 } else { 0 };
            }
        }
    }

    /// On exit: when the window lies right of and below the screen's top left
    /// corner, records its position in the settings and returns `true` (the
    /// settings are then to be saved); otherwise changes nothing.
    pub fn record_window_position(&mut self) -> (save: bool)
        ensures
            save == (old(self)@.window_x > 0 && old(self)@.window_y > 0),
            final(self)@ == after_exit(old(self)@),
            click_step_ok(old(self)@, final(self)@, 0, false),
    {
        if self.window_x > 0 && self.window_y > 0 {
            self.config.window_pos.x = self.window_x;
            self.config.window_pos.y = self.window_y;
            true
        } else {
            false
        }
    }

    /// Whether a pending click can be settled at `now_ns`: one is pending,
    /// was decided at least the pause after the last click, and `now_ns` is
    /// not before the decision.
    pub fn click_can_finish(&self, now_ns: u64) -> (b: bool)
        ensures
            b == (self@.pending_click_ns matches Some(t) && t >= self@.last_click_ns
                + pause_ns(self@.config) && now_ns >= t),
    {
        match self.pending_click_ns {
            Some(t) => t as u128 >= self.last_click_ns as u128 + self.config.click_delay_ms as u128 * 1_000_000
                && now_ns >= t,
            None => false,
        }
    }

    /// Whether a round's result can be taken in at `now_ns`: a click in it
    /// can still be counted, was decided at least the pause after the last
    /// click, and `now_ns` is not before the decision.
    pub fn result_fits(&self, result: &DetectionResult, now_ns: u64) -> (b: bool)
        ensures
            b == (result.clicked ==> {
                &&& self@.click_count < u64::MAX
                &&& result.decided_ns >= self@.last_click_ns + pause_ns(self@.config)
                &&& now_ns >= result.decided_ns
            }),
    {
        !result.clicked || (self.click_count < u64::MAX && result.decided_ns as u128
            >= self.last_click_ns as u128 + self.config.click_delay_ms as u128 * 1_000_000
            && now_ns >= result.decided_ns)
    }

    /// Records where the window's top left corner is on the screen.
    pub fn record_window_origin(&mut self, x: i32, y: i32)
        ensures
            final(self)@ == (AppView { window_x: x, window_y: y, ..old(self)@ }),
            click_step_ok(old(self)@, final(self)@, 0, false),
    {
        self.window_x = x;
        self.window_y = y;
    }

    /// Whether the region below a window at `rect` can be placed: its left
    /// edge lies within `i32`.
    pub fn region_below_fits(&self, rect: &WindowRect) -> (b: bool)
        ensures
            b == (i32::MIN <= rect.center_x - half_toward_zero(as_signed(self@.config.box_size.width)) <= i32::MAX),
    {
        let w: i32 = wrap_signed(self.config.box_size.width);
        let x: i64 = rect.center_x as i64 - half_of(w) as i64;
        x >= -0x8000_0000 && x <= 0x7fff_ffff
    }

    /// Synchronous detection, first step: when detection is on and the
    /// window's place is known, records the window position and returns the
    /// region below the window to capture.
    pub fn begin_sync_detection(&mut self, rect: Option<WindowRect>) -> (req: Option<CaptureRequest>)
        requires
            old(self)@.is_detecting && rect is Some ==> i32::MIN <= rect->0.center_x
                - half_toward_zero(as_signed(old(self)@.config.box_size.width)) <= i32::MAX,
        ensures
            req == (if old(self)@.is_detecting && rect is Some {
                Some(region_below(rect->0, old(self)@.config))
            } else {
                None
            }),
            req is Some ==> final(self)@.window_x == rect->0.min_x && final(self)@.window_y == rect->0.min_y,
            req is None ==> final(self)@.window_x == old(self)@.window_x && final(self)@.window_y == old(self)@.window_y,
            final(self)@.config == old(self)@.config,
            final(self)@.analysis == old(self)@.analysis,
            final(self)@.is_detecting == old(self)@.is_detecting,
            final(self)@.auto_click_enabled == old(self)@.auto_click_enabled,
            final(self)@.detection_status == old(self)@.detection_status,
            final(self)@.error_message == old(self)@.error_message,
            final(self)@.click_count == old(self)@.click_count,
            final(self)@.is_working == old(self)@.is_working,
            final(self)@.last_click_ns == old(self)@.last_click_ns,
            final(self)@.pending_click_ns == old(self)@.pending_click_ns,
            click_step_ok(old(self)@, final(self)@, 0, false),
    {
        if !self.is_detecting {
            return None;
        }
        match rect {
            None => None,
            Some(r) => {
                self.window_x = r.min_x;
                self.window_y = r.min_y;
                let w: i32 = wrap_signed(self.config.box_size.width);
                let x: i32 = r.center_x - half_of(w);
                Some(CaptureRequest {
                    x,
                    y: r.max_y,
                    width: self.config.box_size.width,
                    height: self.config.box_size.height,
                })
            },
        }
    }

    /// Synchronous detection, second step: takes in the capture of the
    /// region and returns whether to click now. A failed capture shows its
    /// error; an empty one changes only the status; otherwise the analysis is
    /// shown and, unless a click is due, the decision's status. `now_ns` is
    /// the time on the detector's clock; a click that is due is recorded as
    /// pending from then.
    pub fn apply_sync_capture(&mut self, capture: Result<Vec<u8>, String>, now_ns: u64) -> (click: bool)
        requires
            capture_ok(capture),
            now_ns >= old(self)@.last_click_ns,
        ensures
            match capture {
                Err(e) => {
                    &&& !click
                    &&& final(self)@.error_message == e
                    &&& final(self)@.detection_status == DetectionStatus::ScreenshotFailed
                    &&& final(self)@.analysis == old(self)@.analysis
                },
                Ok(p) => if p@.len() == 0 {
                    &&& !click
                    &&& final(self)@.error_message == old(self)@.error_message
                    &&& final(self)@.detection_status == DetectionStatus::NoPixels
                    &&& final(self)@.analysis == old(self)@.analysis
                } else {
                    let a = spec_analysis(p@);
                    let d = spec_decide(
                        a,
                        old(self)@.config,
                        old(self)@.auto_click_enabled,
                        (now_ns - old(self)@.last_click_ns) as u64,
                    );
                    &&& click == (d == Decision::Click)
                    &&& final(self)@.analysis == a
                    &&& final(self)@.error_message == old(self)@.error_message
                    &&& final(self)@.detection_status == (if click {
                        old(self)@.detection_status
                    } else {
                        status_of(d)
                    })
                },
            },
            final(self)@.config == old(self)@.config,
            final(self)@.window_x == old(self)@.window_x,
            final(self)@.window_y == old(self)@.window_y,
            final(self)@.is_detecting == old(self)@.is_detecting,
            final(self)@.auto_click_enabled == old(self)@.auto_click_enabled,
            final(self)@.click_count == old(self)@.click_count,
            final(self)@.is_working == old(self)@.is_working,
            final(self)@.last_click_ns == old(self)@.last_click_ns,
            final(self)@.pending_click_ns == (if click { Some(now_ns) } else { None }),
            click_step_ok(old(self)@, final(self)@, now_ns, false),
    {
        self.pending_click_ns = None;
        match capture {
            Err(e) => {
                self.error_message = e;
                self.detection_status = DetectionStatus::ScreenshotFailed;
                false
            },
            Ok(pixels) => {
                if pixels.len() == 0 {
                    self.detection_status = DetectionStatus::NoPixels;
                    return false;
                }
                let analysis = ColorDetector::analyze_colors(pixels.as_slice(), &self.config);
                self.analysis = analysis;
                let since: u64 = now_ns - self.last_click_ns;
                match decide(&analysis, &self.config, self.auto_click_enabled, since) {
                    Decision::Click => {
                        self.pending_click_ns = Some(now_ns);
                        true
                    },
                    Decision::Wait => {
                        self.detection_status = DetectionStatus::Waiting;
                        false
                    },
                    Decision::MatchedAutoOff => {
                        self.detection_status = DetectionStatus::TargetMatched;
                        false
                    },
                    Decision::BelowThreshold => {
                        self.detection_status = DetectionStatus::Detecting;
                        false
                    },
                }
            },
        }
    }

    /// Synchronous detection, last step: takes in the outcome of the click.
    /// A success shows that the click was made, records it as made at
    /// `now_ns` and returns `true` (the pause between clicks starts again); a
    /// failure shows its error and returns `false`. The pending click is
    /// settled either way.
    pub fn finish_sync_click(&mut self, outcome: Result<(), String>, now_ns: u64) -> (clicked: bool)
        requires
            old(self)@.pending_click_ns matches Some(t) && t >= old(self)@.last_click_ns
                + pause_ns(old(self)@.config) && now_ns >= t,
        ensures
            clicked == outcome is Ok,
            final(self)@.last_click_ns == (if clicked { now_ns } else { old(self)@.last_click_ns }),
            final(self)@.pending_click_ns is None,
            click_step_ok(old(self)@, final(self)@, now_ns, clicked),
            match outcome {
                Ok(_) => final(self)@.detection_status == DetectionStatus::Clicked
                    && final(self)@.error_message == old(self)@.error_message,
                Err(e) => final(self)@.detection_status == DetectionStatus::ClickFailed
                    && final(self)@.error_message == e,
            },
            final(self)@.config == old(self)@.config,
            final(self)@.window_x == old(self)@.window_x,
            final(self)@.window_y == old(self)@.window_y,
            final(self)@.analysis == old(self)@.analysis,
            final(self)@.is_detecting == old(self)@.is_detecting,
            final(self)@.auto_click_enabled == old(self)@.auto_click_enabled,
            final(self)@.click_count == old(self)@.click_count,
            final(self)@.is_working == old(self)@.is_working,
    {
        self.pending_click_ns = None;
        match outcome {
            Ok(_) => {
                self.detection_status = DetectionStatus::Clicked;
                self.last_click_ns = now_ns;
                true
            },
            Err(e) => {
                self.error_message = e;
                self.detection_status = DetectionStatus::ClickFailed;
                false
            },
        }
    }

    /// Clears the shown colour readings and the error line.
    pub fn reset_readings(&mut self)
        ensures
            final(self)@.analysis == zero_analysis(),
            final(self)@.error_message@.len() == 0,
            final(self)@.config == old(self)@.config,
            final(self)@.window_x == old(self)@.window_x,
            final(self)@.window_y == old(self)@.window_y,
            final(self)@.is_detecting == old(self)@.is_detecting,
            final(self)@.auto_click_enabled == old(self)@.auto_click_enabled,
            final(self)@.detection_status == old(self)@.detection_status,
            final(self)@.click_count == old(self)@.click_count,
            final(self)@.is_working == old(self)@.is_working,
            final(self)@.last_click_ns == old(self)@.last_click_ns,
            final(self)@.pending_click_ns == old(self)@.pending_click_ns,
            click_step_ok(old(self)@, final(self)@, 0, false),
    {
        self.analysis = ColorAnalysis::empty();
        self.error_message = String::new();
    }
}

/// Clicks keep their pause: a click is decided only with auto-click on, a
/// blue share that reaches the threshold, and at least `click_delay_ms`
/// milliseconds since the last click.
pub proof fn clicks_keep_their_pause(a: ColorAnalysis, config: Config, auto_click: bool, since_last_click_ns: u64)
    ensures
        spec_decide(a, config, auto_click, since_last_click_ns) == Decision::Click <==> {
            &&& auto_click
            &&& a.blue_share_reaches(config.color_ratio_bp as int)
            &&& since_last_click_ns >= pause_ns(config)
        },
{
}

/// One background round at a time: once a round is under way, asking for
/// another starts none, and a round that starts leaves one under way.
pub proof fn one_round_at_a_time(app: AppView)
    ensures
        !can_begin(after_begin(app)),
        after_begin(app).is_working == (app.is_working || app.is_detecting),
{
}

/// Taking in a round's result lets the next round start while detection is on.
pub proof fn result_reopens_detection(app: AppView, r: DetectionResult, now_ns: u64)
    requires
        app.is_detecting,
    ensures
        can_begin(after_result(app, r, now_ns)),
{
}

/// Switching auto-click twice restores the switch; the status then shows its
/// position.
pub proof fn toggle_twice_restores(app: AppView)
    ensures
        toggled(toggled(app)) == (AppView {
            detection_status: if app.auto_click_enabled {
                DetectionStatus::AutoClickOn
            } else {
                DetectionStatus::AutoClickOff
            },
            ..app
        }),
{
}

/// The arrow keys keep the opacity within 0 to 100 percent and the
/// threshold within 0 to 1.
pub proof fn keys_keep_ranges(o: u8, r: u32, up: bool, down: bool)
    ensures
        o <= 100 ==> opacity_after_keys(o, up, down) <= 100,
        r <= RATIO_ONE ==> ratio_after_keys(r, up, down) <= RATIO_ONE,
        ratio_after_keys(r, true, false) <= RATIO_ONE,
        opacity_after_keys(o, true, false) <= 100,
{
}

/// A press of up and a later press of down undo each other away from the
/// ends of the range, in either order.
pub proof fn key_presses_undo(o: u8, r: u32)
    ensures
        o < 100 ==> opacity_after_keys(opacity_after_keys(o, true, false), false, true) == o,
        1 <= o <= 100 ==> opacity_after_keys(opacity_after_keys(o, false, true), true, false) == o,
        r + 100 <= RATIO_ONE ==> ratio_after_keys(ratio_after_keys(r, true, false), false, true) == r,
        100 <= r <= RATIO_ONE ==> ratio_after_keys(ratio_after_keys(r, false, true), true, false) == r,
{
}

/// The steps `states[0] -> states[1] -> ... -> states[n]` all keep the pause
/// between clicks, step `k` happening at `times[k]` and clicking when
/// `clicked[k]`.
pub open spec fn run_keeps_pause(states: Seq<AppView>, times: Seq<u64>, clicked: Seq<bool>) -> bool {
    &&& states.len() == times.len() + 1
    &&& clicked.len() == times.len()
    &&& forall|k: int| 0 <= k < times.len() ==> #[trigger] click_step_ok(states[k], states[k + 1], times[k], clicked[k])
}

proof fn lemma_run_prefix(states: Seq<AppView>, times: Seq<u64>, clicked: Seq<bool>, n: int)
    requires
        run_keeps_pause(states, times, clicked),
        0 <= n <= times.len(),
    ensures
        states[n].config.click_delay_ms == states[0].config.click_delay_ms,
        states[n].last_click_ns >= states[0].last_click_ns,
        forall|i: int| 0 <= i < n && #[trigger] clicked[i] ==> states[n].last_click_ns >= times[i],
        forall|i: int| 0 <= i < n && #[trigger] clicked[i] ==> times[i] >= states[0].last_click_ns
            + pause_ns(states[0].config),
    decreases n,
{
    if n > 0 {
        lemma_run_prefix(states, times, clicked, n - 1);
        let k = n - 1;
        assert(click_step_ok(states[k], states[k + 1], times[k], clicked[k]));
        assert(states[k + 1] == states[n]);
    }
}

/// Clicks keep the pause over any run of the detector: in a run whose steps
/// each keep the pause (as every method of `ColorClickerApp` ensures of its
/// call), every click comes at least `click_delay_ms` milliseconds after the last click
/// before the run, and any two clicks come at least `click_delay_ms` apart.
/// For a detector made by `new` the last click is at 0, the detector's start.
pub proof fn clicks_are_spaced(states: Seq<AppView>, times: Seq<u64>, clicked: Seq<bool>)
    requires
        run_keeps_pause(states, times, clicked),
    ensures
        forall|j: int| 0 <= j < times.len() && #[trigger] clicked[j] ==> times[j] >= states[0].last_click_ns
            + pause_ns(states[0].config),
        forall|i: int, j: int|
            0 <= i < j < times.len() && #[trigger] clicked[i] && #[trigger] clicked[j] ==> times[j] >= times[i]
                + pause_ns(states[0].config),
{
    assert forall|j: int| 0 <= j < times.len() && #[trigger] clicked[j] implies times[j] >= states[0].last_click_ns
        + pause_ns(states[0].config) by {
        lemma_run_prefix(states, times, clicked, j);
        assert(click_step_ok(states[j], states[j + 1], times[j], clicked[j]));
    }
    assert forall|i: int, j: int|
        0 <= i < j < times.len() && #[trigger] clicked[i] && #[trigger] clicked[j] implies times[j] >= times[i]
            + pause_ns(states[0].config) by {
        lemma_run_prefix(states, times, clicked, j);
        assert(click_step_ok(states[j], states[j + 1], times[j], clicked[j]));
    }
}

/// The decision written out on the fields: the share of blue in the sum of
/// the channel totals against the threshold, then the switch, then the
/// nanoseconds since the last click against the pause.
pub open spec fn decision_by_fields(a: ColorAnalysis, config: Config, auto_click: bool, since_ns: u64) -> Decision {
    let t = a.total_red + a.total_green + a.total_blue;
    let reached = if t > 0 {
        a.total_blue * 10000 >= config.color_ratio_bp * t
    } else {
        config.color_ratio_bp == 0
    };
    if !reached {
        Decision::BelowThreshold
    } else if !auto_click {
        Decision::MatchedAutoOff
    } else if since_ns >= config.click_delay_ms * 1_000_000 {
        Decision::Click
    } else {
        Decision::Wait
    }
}

/// What each decision means: a share below the threshold gives
/// `BelowThreshold` whatever the switch and the clock; `MatchedAutoOff` only
/// for a share that reaches the threshold with auto-click off; `Click` only
/// with the share reached, auto-click on and the pause over; `Wait` only with
/// the share reached, auto-click on and the pause not over.
pub proof fn decisions_follow_share_switch_and_pause(a: ColorAnalysis, config: Config, auto_click: bool, since_ns: u64)
    ensures
        ({
            let t = a.total_red + a.total_green + a.total_blue;
            let bp = config.color_ratio_bp as int;
            let below = (t > 0 && a.total_blue * 10000 < bp * t) || (t == 0 && bp > 0);
            let d = spec_decide(a, config, auto_click, since_ns);
            &&& below ==> d == Decision::BelowThreshold
            &&& d == Decision::BelowThreshold ==> below
            &&& d == Decision::MatchedAutoOff <==> !below && !auto_click
            &&& d == Decision::Click <==> !below && auto_click && since_ns >= config.click_delay_ms * 1_000_000
            &&& d == Decision::Wait <==> !below && auto_click && since_ns < config.click_delay_ms * 1_000_000
        }),
        spec_decide(a, config, auto_click, since_ns) == decision_by_fields(a, config, auto_click, since_ns),
{
    crate::color::share_reached_by_fields(a, config.color_ratio_bp);
}

/// Taking in a round's result shows that round's readings and status
/// whether or not it clicked, counts exactly its click, keeps its error (or
/// the earlier one when it has none), ends the round, and leaves the
/// settings, the window position and the switches alone.
pub proof fn result_is_shown(app: AppView, r: DetectionResult, now_ns: u64)
    requires
        r.clicked ==> app.click_count < u64::MAX,
    ensures
        ({
            let after = after_result(app, r, now_ns);
            &&& after.analysis == r.analysis
            &&& after.detection_status == r.status
            &&& after.click_count == app.click_count + (if r.clicked { 1int } else { 0 })
            &&& after.error_message == (if r.error is Some { r.error->0 } else { app.error_message })
            &&& !after.is_working
            &&& after.last_click_ns == (if r.clicked { now_ns } else { app.last_click_ns })
            &&& after.config == app.config
            &&& after.window_x == app.window_x && after.window_y == app.window_y
            &&& after.is_detecting == app.is_detecting
            &&& after.auto_click_enabled == app.auto_click_enabled
            &&& after.pending_click_ns == app.pending_click_ns
        }),
{
}

} // verus!
