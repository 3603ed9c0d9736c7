use slider_io::context::{DeviceKind, WorkerPlan};
use slider_io::config::{KeyboardLayout, OutputMode, PollingRate};
use slider_io::http::{content_type, landing_page, route, Route};
use slider_io::job::{BrokenithmJob, LIGHTS_INTERVAL_MS};
use slider_io::protocol::BrokenithmSpec;
use slider_io::session::{Session, SessionPhase};
use slider_io::state::{ControllerState, LightsState};
use slider_io::text::str_eq;

fn asset(name: &str, kind: &str) -> Route {
    Route::Asset { name: name.to_string(), content_type: kind.to_string() }
}

#[test]
fn landing_page_follows_the_layout() {
    for path in ["/", "/index.html"] {
        assert_eq!(route("GET", path, false, BrokenithmSpec::Basic), asset("index.html", "text/html"));
        assert_eq!(route("GET", path, false, BrokenithmSpec::GroundOnly), asset("index-go.html", "text/html"));
        assert_eq!(route("GET", path, false, BrokenithmSpec::Nostalgia), asset("index-ns.html", "text/html"));
        assert_eq!(route("GET", path, false, BrokenithmSpec::HandTracking), asset("handtracker.html", "text/html"));
    }
    assert_eq!(landing_page(BrokenithmSpec::Basic), "index.html");
}

#[test]
fn assets_are_found_by_exact_path() {
    let spec = BrokenithmSpec::Basic;
    assert_eq!(route("GET", "/app.js", false, spec), asset("app.js", "text/javascript"));
    assert_eq!(route("GET", "/config.js", false, spec), asset("config.js", "text/javascript"));
    assert_eq!(route("GET", "/styles.css", false, spec), asset("styles.css", "text/css"));
    assert_eq!(route("GET", "/favicon.ico", false, spec), asset("favicon.ico", "image/x-icon"));
    assert_eq!(route("GET", "/icon.png", false, spec), asset("icon.png", "image/png"));
    assert_eq!(route("GET", "/index-go.html", false, spec), asset("index-go.html", "text/html"));
    assert_eq!(
        route("GET", "/lib/tasks-vision/wasm/vision_wasm_internal.wasm", false, spec),
        asset("lib/tasks-vision/wasm/vision_wasm_internal.wasm", "application/wasm")
    );
    assert_eq!(
        route("GET", "/lib/hand-landmarker_float_16/hand_landmarker.task", false, spec),
        asset("lib/hand-landmarker_float_16/hand_landmarker.task", "application/octet-stream")
    );
}

#[test]
fn content_types_of_the_bundle() {
    assert_eq!(content_type("mediapipe-hands-min.js"), Some("text/javascript"));
    assert_eq!(content_type("lib/tasks-vision/vision_bundle.mjs"), Some("text/javascript"));
    assert_eq!(content_type("lib/tasks-vision/wasm/vision_wasm_nosimd_internal.js"), Some("text/javascript"));
    assert_eq!(content_type("lib/tasks-vision/wasm/vision_wasm_nosimd_internal.wasm"), Some("application/wasm"));
    assert_eq!(content_type("handtracker.html"), Some("text/html"));
    assert_eq!(content_type("App.js"), None);
    assert_eq!(content_type("/app.js"), None);
    assert_eq!(content_type(""), None);
}

#[test]
fn unknown_paths_are_not_found() {
    let spec = BrokenithmSpec::Basic;
    for path in ["/nothing", "/app.js/", "/APP.JS", "app.js", "//app.js", "/ws", "", "*", "/../app.js"] {
        assert_eq!(route("GET", path, false, spec), Route::NotFound);
    }
}

#[test]
fn only_get_is_served() {
    for method in ["POST", "PUT", "HEAD", "get", "", "DELETE"] {
        assert_eq!(route(method, "/", false, BrokenithmSpec::Basic), Route::NotFound);
        assert_eq!(route(method, "/app.js", false, BrokenithmSpec::Basic), Route::NotFound);
        assert_eq!(route(method, "/ws", true, BrokenithmSpec::Basic), Route::NotFound);
    }
}

#[test]
fn upgrade_happens_on_ws_alone() {
    assert_eq!(route("GET", "/ws", true, BrokenithmSpec::HandTracking), Route::Upgrade);
    assert_eq!(route("GET", "/", true, BrokenithmSpec::Basic), Route::NotFound);
    assert_eq!(route("GET", "/app.js", true, BrokenithmSpec::Basic), Route::NotFound);
    assert_eq!(route("GET", "/ws/", true, BrokenithmSpec::Basic), Route::NotFound);
}

#[test]
fn strings_compare_by_their_characters() {
    assert!(str_eq("", ""));
    assert!(str_eq("abc", "abc"));
    assert!(!str_eq("abc", "abd"));
    assert!(!str_eq("abc", "ab"));
    assert!(!str_eq("ab", "abc"));
    assert!(str_eq("\u{e9}t\u{e9}", "\u{e9}t\u{e9}"));
    assert!(!str_eq("\u{e9}", "e"));
}

#[test]
fn job_keeps_what_it_was_made_with() {
    let mut state = ControllerState::new();
    state.input.air[2] = 1;
    state.lights.ground[5] = 9;
    let job = BrokenithmJob::new(&state, &BrokenithmSpec::Nostalgia, &true, &1606);
    assert_eq!(job.state, state);
    assert_eq!(job.spec, BrokenithmSpec::Nostalgia);
    assert!(job.lights_enabled);
    assert_eq!(job.port, 1606);
}

#[test]
fn job_routes_under_its_layout() {
    let job = BrokenithmJob::new(&ControllerState::new(), &BrokenithmSpec::GroundOnly, &false, &80);
    assert_eq!(job.route("GET", "/", false), asset("index-go.html", "text/html"));
    assert_eq!(job.route("GET", "/ws", true), Route::Upgrade);
    assert_eq!(job.route("POST", "/", false), Route::NotFound);
}

#[test]
fn job_opens_sessions_under_its_layout() {
    let job = BrokenithmJob::new(&ControllerState::new(), &BrokenithmSpec::HandTracking, &false, &80);
    let session = job.session();
    assert_eq!(session, Session { phase: SessionPhase::Open, spec: BrokenithmSpec::HandTracking });
}

#[test]
fn lights_frames_only_when_enabled() {
    let mut state = ControllerState::new();
    state.lights.ground[31] = 200;
    let on = BrokenithmJob::new(&state, &BrokenithmSpec::Basic, &true, &80);
    let frame = on.lights_frame(&state.lights).unwrap();
    assert_eq!(frame.len(), state.input.ground.len());
    assert_eq!(frame, state.lights.ground.to_vec());
    let other = LightsState { ground: [77u8; 32] };
    assert_eq!(on.lights_frame(&other), Some(vec![77u8; 32]));
    let off = BrokenithmJob::new(&state, &BrokenithmSpec::Basic, &false, &80);
    assert_eq!(off.lights_frame(&state.lights), None);
    assert_eq!(LIGHTS_INTERVAL_MS, 50);
}

#[test]
fn plan_has_one_input_source_at_most() {
    let keyboard = OutputMode::Keyboard {
        layout: KeyboardLayout::Voltex,
        polling: PollingRate::Thousand,
        sensitivity: 20,
    };
    let plan = WorkerPlan::for_modes(DeviceKind::Hardware, &keyboard, true);
    assert_eq!(plan, WorkerPlan { device: true, brokenithm: false, output: true, led: true });
    assert_eq!(plan.timer_labels(), vec!['d', 'o', 'l']);
    let plan = WorkerPlan::for_modes(DeviceKind::Brokenithm, &OutputMode::Disabled, true);
    assert_eq!(plan, WorkerPlan { device: false, brokenithm: true, output: false, led: true });
    assert_eq!(plan.timer_labels(), vec!['l']);
    let plan = WorkerPlan::for_modes(DeviceKind::Absent, &keyboard, false);
    assert_eq!(plan, WorkerPlan { device: false, brokenithm: false, output: true, led: false });
    assert_eq!(plan.timer_labels(), vec!['o']);
    let plan = WorkerPlan::for_modes(DeviceKind::Absent, &OutputMode::Disabled, false);
    assert_eq!(plan.timer_labels(), Vec::<char>::new());
}

#[test]
fn stopping_twice_joins_once() {
    let mut life = slider_io::worker::Lifecycle::started();
    assert!(life.is_running());
    assert_eq!(life.stop(), slider_io::worker::StopStep::SignalAndJoin);
    assert!(!life.is_running());
    let once = life;
    assert_eq!(life.stop(), slider_io::worker::StopStep::Nothing);
    assert_eq!(life, once);
    assert_eq!(life.phase, slider_io::worker::Phase::Stopped);
}
