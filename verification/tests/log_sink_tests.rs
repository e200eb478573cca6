use servo::log_sink::{
    max_filter, passes, set_logger, DualLogSink, InstallError, LogFilter, LogLevel, LogRecord,
    LoggerRegistry, SinkSide,
};

#[test]
fn effective_filter_is_the_maximum() {
    assert_eq!(max_filter(LogFilter::Warn, LogFilter::Info), LogFilter::Info);
    assert_eq!(max_filter(LogFilter::Info, LogFilter::Warn), LogFilter::Info);
    assert_eq!(max_filter(LogFilter::Off, LogFilter::Trace), LogFilter::Trace);
    assert_eq!(max_filter(LogFilter::Error, LogFilter::Error), LogFilter::Error);

    let sink = DualLogSink::new(LogFilter::Warn, LogFilter::Info);
    assert_eq!(sink.effective_filter(), LogFilter::Info);
}

#[test]
fn enabled_is_the_disjunction_of_both_filters() {
    let sink = DualLogSink::new(LogFilter::Warn, LogFilter::Off);
    assert!(sink.enabled(LogLevel::Warn));
    assert!(sink.enabled(LogLevel::Error));
    assert!(!sink.enabled(LogLevel::Info));

    let off = DualLogSink::new(LogFilter::Off, LogFilter::Off);
    assert!(!off.enabled(LogLevel::Error));

    assert!(passes(LogLevel::Info, LogFilter::Info));
    assert!(!passes(LogLevel::Debug, LogFilter::Info));
}

#[test]
fn warn_info_sink_suppresses_debug_and_fans_out_info() {
    let mut sink = DualLogSink::new(LogFilter::Warn, LogFilter::Info);

    // a Debug record is suppressed by the effective (Info) filter
    let debug = LogRecord { level: LogLevel::Debug, code: 1 };
    assert!(!sink.submit(debug));
    assert_eq!(sink.journal_len(), 0);

    // an Info record reaches both destinations, local before remote
    let info = LogRecord { level: LogLevel::Info, code: 2 };
    assert!(sink.submit(info));
    assert_eq!(sink.journal_len(), 2);
    assert_eq!(sink.journal_at(0), (SinkSide::Local, info));
    assert_eq!(sink.journal_at(1), (SinkSide::Remote, info));
}

#[test]
fn unconditional_forward_goes_local_then_remote() {
    let mut sink = DualLogSink::new(LogFilter::Error, LogFilter::Error);
    let rec = LogRecord { level: LogLevel::Error, code: 9 };
    sink.log(rec);
    assert_eq!(sink.journal_len(), 2);
    assert_eq!(sink.journal_at(0).0, SinkSide::Local);
    assert_eq!(sink.journal_at(1).0, SinkSide::Remote);
}

#[test]
fn second_install_fails_and_changes_nothing() {
    let mut reg = LoggerRegistry::new();
    assert!(!reg.is_installed());
    assert_eq!(reg.current_max_level(), LogFilter::Off);

    assert!(reg.install(LogFilter::Warn, LogFilter::Info).is_ok());
    assert!(reg.is_installed());
    assert_eq!(reg.current_max_level(), LogFilter::Info);

    assert_eq!(
        reg.install(LogFilter::Trace, LogFilter::Trace),
        Err(InstallError::AlreadyInstalled)
    );
    assert_eq!(reg.current_max_level(), LogFilter::Info);
}

#[test]
fn registry_gates_and_journals_records() {
    let mut reg = LoggerRegistry::new();
    // nothing happens while no logger is installed
    assert!(!reg.submit(LogRecord { level: LogLevel::Error, code: 1 }));
    assert_eq!(reg.journal_len(), 0);

    set_logger(&mut reg, LogFilter::Warn, LogFilter::Info).unwrap();
    assert!(!reg.submit(LogRecord { level: LogLevel::Debug, code: 2 }));
    assert!(reg.submit(LogRecord { level: LogLevel::Warn, code: 3 }));
    assert_eq!(reg.journal_len(), 2);
    let (side, rec) = reg.journal_at(0);
    assert_eq!(side, SinkSide::Local);
    assert_eq!(rec.code, 3);
}
