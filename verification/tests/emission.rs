use exec_time::{
    backend_sink, emit_statement, select_emission, DurationThreshold, Emission, Emitter,
    EventLevel, OutputBackend, Sink, TimeUnit,
};

#[test]
fn without_thresholds_every_call_is_reported() {
    assert_eq!(select_emission(0, None, None), Emission::Normal);
    assert_eq!(select_emission(u128::MAX, None, None), Emission::Normal);
}

#[test]
fn log_over_reports_only_slow_calls() {
    assert_eq!(select_emission(999_999, Some(1_000_000), None), Emission::Skip);
    assert_eq!(select_emission(1_000_000, Some(1_000_000), None), Emission::Normal);
    assert_eq!(select_emission(2_000_000, Some(1_000_000), None), Emission::Normal);
}

#[test]
fn warn_over_warns_only_on_slow_calls() {
    assert_eq!(select_emission(10, None, Some(11)), Emission::Skip);
    assert_eq!(select_emission(11, None, Some(11)), Emission::Warn);
}

#[test]
fn warn_over_takes_precedence_over_log_over() {
    assert_eq!(select_emission(300, Some(100), Some(250)), Emission::Warn);
    assert_eq!(select_emission(200, Some(100), Some(250)), Emission::Normal);
    assert_eq!(select_emission(50, Some(100), Some(250)), Emission::Skip);
    assert_eq!(select_emission(300, Some(400), Some(250)), Emission::Warn);
}

#[test]
fn sinks_follow_the_backend() {
    assert_eq!(backend_sink(OutputBackend::Stdout, EventLevel::Info, false, true), Sink::StdoutLine);
    assert_eq!(backend_sink(OutputBackend::Stdout, EventLevel::Warn, true, true), Sink::StderrLine);
    assert_eq!(backend_sink(OutputBackend::Auto, EventLevel::Info, false, false), Sink::StdoutLine);
    assert_eq!(backend_sink(OutputBackend::Auto, EventLevel::Warn, true, false), Sink::StderrLine);
    assert_eq!(
        backend_sink(OutputBackend::Auto, EventLevel::Debug, false, true),
        Sink::Tracing(EventLevel::Debug)
    );
    assert_eq!(
        backend_sink(OutputBackend::Tracing, EventLevel::Trace, false, true),
        Sink::Tracing(EventLevel::Trace)
    );
    assert_eq!(
        backend_sink(OutputBackend::Tracing, EventLevel::Trace, false, false),
        Sink::TracingUnavailable
    );
}

#[test]
fn line_formats_carry_the_prefix() {
    assert_eq!(Sink::StdoutLine.line_format(), Some("[exec_time] {}"));
    assert_eq!(Sink::StderrLine.line_format(), Some("[exec_time][warn] [exec_time] {}"));
    assert_eq!(Sink::Tracing(EventLevel::Info).line_format(), None);
    assert_eq!(Sink::TracingUnavailable.line_format(), None);
}

#[test]
fn statement_carries_label_sinks_and_thresholds() {
    let s = emit_statement(
        "db.query",
        OutputBackend::Stdout,
        EventLevel::Info,
        TimeUnit::Ms,
        None,
        Some(DurationThreshold(250_000_000)),
        false,
    );
    assert_eq!(s.label, "db.query");
    assert_eq!(s.normal, Emitter { sink: Sink::StdoutLine, unit: TimeUnit::Ms });
    assert_eq!(s.warn, Emitter { sink: Sink::StderrLine, unit: TimeUnit::Ms });
    assert_eq!(s.log_over, None);
    assert_eq!(s.warn_over, Some(250_000_000));
    assert!(s.has_thresholds());
    assert_eq!(s.emission(312_000_000), Emission::Warn);
    assert_eq!(s.emission(100_000_000), Emission::Skip);
}

#[test]
fn tracing_warnings_use_the_warn_level() {
    let s = emit_statement(
        "worker.warn",
        OutputBackend::Auto,
        EventLevel::Debug,
        TimeUnit::Us,
        None,
        None,
        true,
    );
    assert_eq!(s.normal.sink, Sink::Tracing(EventLevel::Debug));
    assert_eq!(s.warn.sink, Sink::Tracing(EventLevel::Warn));
    assert!(!s.has_thresholds());
}
