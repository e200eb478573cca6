use servo::config::{Opts, WindowCaps};
use servo::log_sink::{InstallError, LogFilter, LoggerRegistry};
use servo::root::{Embedding, Servo, WindowEvent};
use servo::script::ScriptRuntime;

fn window() -> WindowCaps {
    WindowCaps {
        framebuffer_width: 800,
        framebuffer_height: 600,
        supports_clipboard: true,
        waker: 42,
    }
}

#[test]
fn a_completed_run_yields_exactly_one_handle() {
    let mut embedding = Embedding::new();
    let mut rt = ScriptRuntime::new();
    assert!(!embedding.has_handle());

    let servo = Servo::new(window(), Opts::default(), &mut embedding, &mut rt);

    // the embedding now holds its one handle; a second run is ruled out
    assert!(embedding.has_handle());
    assert!(servo.is_running());
    assert!(rt.is_initialized());
    assert!(rt.has_service_workers());

    // teardown consumes the handle: it cannot be used, or torn down, again
    servo.deinit();
}

#[test]
fn the_render_surface_matches_the_framebuffer() {
    let mut embedding = Embedding::new();
    let mut rt = ScriptRuntime::new();
    let servo = Servo::new(window(), Opts::default(), &mut embedding, &mut rt);
    assert_eq!(servo.surface_size(), (800, 600));
    assert_eq!(servo.pending_notifications(), 0);
    servo.deinit();
}

#[test]
fn the_pump_runs_until_a_quit_event() {
    let mut embedding = Embedding::new();
    let mut rt = ScriptRuntime::new();
    let mut servo = Servo::new(window(), Opts::default(), &mut embedding, &mut rt);

    assert!(servo.handle_events(vec![]));
    assert!(servo.handle_events(vec![WindowEvent::Idle, WindowEvent::Refresh]));
    servo.repaint_synchronously();
    assert!(servo.is_running());

    assert!(!servo.handle_events(vec![WindowEvent::Idle, WindowEvent::Quit]));
    // once shut down, the pump stays down
    assert!(!servo.handle_events(vec![WindowEvent::Refresh]));
    servo.deinit();
}

#[test]
fn embedder_logging_installs_once() {
    let mut embedding = Embedding::new();
    let mut rt = ScriptRuntime::new();
    let servo = Servo::new(window(), Opts::default(), &mut embedding, &mut rt);

    let mut registry = LoggerRegistry::new();
    servo.setup_logging(&mut registry, LogFilter::Debug).unwrap();
    // effective filter: the more verbose of the environment's Debug and the
    // control channel's Warn
    assert_eq!(registry.current_max_level(), LogFilter::Debug);
    assert_eq!(
        servo.setup_logging(&mut registry, LogFilter::Error),
        Err(InstallError::AlreadyInstalled)
    );
    servo.deinit();
}

#[test]
fn startup_honours_the_option_set() {
    let mut embedding = Embedding::new();
    let mut rt = ScriptRuntime::new();
    let opts = Opts {
        time_profiling: Some(16),
        mem_profiler_period: Some(1000),
        debugger_port: Some(6000),
        devtools_port: Some(6001),
        webdriver_port: Some(7000),
        sandbox: false,
        webvr_enabled: true,
        software_rendering: true,
    };
    let servo = Servo::new(window(), opts, &mut embedding, &mut rt);
    assert!(servo.is_running());
    assert_eq!(servo.surface_size(), (800, 600));
    servo.deinit();
}
