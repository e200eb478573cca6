use servo::bootstrap::{
    run_content_process, BootstrapError, Broker, ChildFatal, UnprivilegedPayload,
};
use servo::config::{Opts, Pref};
use servo::log_sink::{LogFilter, LoggerRegistry};
use servo::sandbox::Platform;
use servo::script::{ScriptRuntime, SwSenders};

fn default_payload(log_chan: u64) -> UnprivilegedPayload {
    UnprivilegedPayload {
        opts: Opts::default(),
        prefs: Vec::new(),
        log_chan,
        log_filter: LogFilter::Info,
        sw_senders: SwSenders { swmanager_sender: 11, resource_sender: 12 },
    }
}

#[test]
fn end_to_end_bootstrap_with_token_abc123() {
    let mut broker = Broker::new();
    let mut registry = LoggerRegistry::new();
    let mut rt = ScriptRuntime::new();

    // parent generates the token and spawns the child with it
    let token = broker.create_rendezvous("abc123".to_string()).unwrap();
    assert_eq!(token.launch_param(), "abc123");

    // child connects with "abc123" and sends its payload-channel endpoint
    let conn = broker.connect(&"abc123".to_string()).unwrap();
    assert_eq!(conn.token_str(), "abc123");

    // parent receives the endpoint and sends {options: defaults, prefs: {}, logging_channel: L}
    broker.deliver_payload(&token, default_payload(77)).unwrap();

    // child receives the payload exactly once and finishes its startup
    let cp = run_content_process(
        &mut broker,
        conn,
        &mut registry,
        &mut rt,
        LogFilter::Warn,
        Platform::Linux,
    )
    .unwrap();
    assert!(cp.is_running());
    assert!(!cp.is_sandboxed());
    assert_eq!(cp.logging_channel(), 77);
    assert_eq!(cp.pref_count(), 0);
    assert!(!cp.options().sandbox);
    assert!(rt.is_initialized());
    assert!(rt.has_service_workers());
    assert!(registry.is_installed());
    assert_eq!(registry.current_max_level(), LogFilter::Info);

    // a second connect attempt with "abc123" fails
    assert!(matches!(
        broker.connect(&"abc123".to_string()),
        Err(BootstrapError::TokenConsumed)
    ));
    // and the payload is never re-delivered
    assert!(matches!(
        broker.deliver_payload(&token, default_payload(77)),
        Err(BootstrapError::AlreadyDelivered)
    ));
}

#[test]
fn delivered_preferences_are_applied_to_the_child() {
    let mut broker = Broker::new();
    let mut registry = LoggerRegistry::new();
    let mut rt = ScriptRuntime::new();
    let token = broker.create_rendezvous("prefs".to_string()).unwrap();
    let conn = broker.connect(&"prefs".to_string()).unwrap();
    let mut payload = default_payload(3);
    payload.prefs.push(Pref { key: "dom.webvr.enabled".to_string(), enabled: true });
    broker.deliver_payload(&token, payload).unwrap();
    let cp = run_content_process(
        &mut broker,
        conn,
        &mut registry,
        &mut rt,
        LogFilter::Error,
        Platform::Linux,
    )
    .unwrap();
    assert_eq!(cp.pref_count(), 1);
    assert_eq!(cp.logging_channel(), 3);
}

#[test]
fn token_used_twice_fails_the_second_time() {
    let mut broker = Broker::new();
    let _token = broker.create_rendezvous("one-shot".to_string()).unwrap();
    let _conn = broker.connect(&"one-shot".to_string()).unwrap();
    assert!(matches!(
        broker.connect(&"one-shot".to_string()),
        Err(BootstrapError::TokenConsumed)
    ));
}

#[test]
fn connect_with_unknown_token_is_refused() {
    let mut broker = Broker::new();
    assert!(matches!(
        broker.connect(&"nobody".to_string()),
        Err(BootstrapError::UnknownToken)
    ));
}

#[test]
fn a_name_never_names_a_second_rendezvous() {
    let mut broker = Broker::new();
    let _t = broker.create_rendezvous("dup".to_string()).unwrap();
    assert!(matches!(
        broker.create_rendezvous("dup".to_string()),
        Err(BootstrapError::TokenInUse)
    ));
}

#[test]
fn delivery_before_connect_is_refused() {
    let mut broker = Broker::new();
    let token = broker.create_rendezvous("early".to_string()).unwrap();
    assert!(matches!(
        broker.deliver_payload(&token, default_payload(1)),
        Err(BootstrapError::NotConnected)
    ));
}

#[test]
fn receive_without_delivery_is_fatal_to_the_child() {
    let mut broker = Broker::new();
    let _token = broker.create_rendezvous("silent".to_string()).unwrap();
    let conn = broker.connect(&"silent".to_string()).unwrap();
    assert!(matches!(
        broker.receive_payload(conn),
        Err(BootstrapError::PayloadMissing)
    ));
}

#[test]
fn child_run_fails_fatally_without_payload() {
    let mut broker = Broker::new();
    let mut registry = LoggerRegistry::new();
    let mut rt = ScriptRuntime::new();
    let _token = broker.create_rendezvous("empty".to_string()).unwrap();
    let conn = broker.connect(&"empty".to_string()).unwrap();
    let r = run_content_process(
        &mut broker,
        conn,
        &mut registry,
        &mut rt,
        LogFilter::Warn,
        Platform::Linux,
    );
    assert!(matches!(
        r,
        Err(ChildFatal::Transport(BootstrapError::PayloadMissing))
    ));
    assert!(!rt.is_initialized());
    assert!(!registry.is_installed());
}

#[test]
fn child_refuses_to_run_with_a_logger_already_installed() {
    let mut broker = Broker::new();
    let mut registry = LoggerRegistry::new();
    registry.install(LogFilter::Error, LogFilter::Error).unwrap();
    let mut rt = ScriptRuntime::new();
    let token = broker.create_rendezvous("logged".to_string()).unwrap();
    let conn = broker.connect(&"logged".to_string()).unwrap();
    broker.deliver_payload(&token, default_payload(5)).unwrap();
    let r = run_content_process(
        &mut broker,
        conn,
        &mut registry,
        &mut rt,
        LogFilter::Warn,
        Platform::Linux,
    );
    assert!(matches!(r, Err(ChildFatal::LoggerInstall)));
    assert!(!rt.is_initialized());
}

#[test]
fn sandboxed_child_enters_the_gate_on_linux() {
    let mut broker = Broker::new();
    let mut registry = LoggerRegistry::new();
    let mut rt = ScriptRuntime::new();
    let token = broker.create_rendezvous("boxed".to_string()).unwrap();
    let conn = broker.connect(&"boxed".to_string()).unwrap();
    let mut payload = default_payload(4);
    payload.opts.sandbox = true;
    broker.deliver_payload(&token, payload).unwrap();
    let cp = run_content_process(
        &mut broker,
        conn,
        &mut registry,
        &mut rt,
        LogFilter::Warn,
        Platform::Linux,
    )
    .unwrap();
    assert!(cp.is_sandboxed());
    assert!(cp.is_running());
}

#[test]
fn requested_sandbox_never_degrades_silently() {
    let mut broker = Broker::new();
    let mut registry = LoggerRegistry::new();
    let mut rt = ScriptRuntime::new();
    let token = broker.create_rendezvous("win".to_string()).unwrap();
    let conn = broker.connect(&"win".to_string()).unwrap();
    let mut payload = default_payload(4);
    payload.opts.sandbox = true;
    broker.deliver_payload(&token, payload).unwrap();
    let r = run_content_process(
        &mut broker,
        conn,
        &mut registry,
        &mut rt,
        LogFilter::Warn,
        Platform::Windows,
    );
    assert!(matches!(r, Err(ChildFatal::SandboxUnavailable)));
    // fatal before the pipeline starts: the runtime never initialized
    assert!(!rt.is_initialized());
}
