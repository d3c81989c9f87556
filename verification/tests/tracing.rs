use exec_time::{instrumentation_plan, EventLevel, MacroArgs, OutputBackend};

// In a program that uses the attribute this function carries
// `#[exec_time(print = "never", backend = "tracing", level = "debug")]`.
fn sync_tracing_backend(value: i32) -> i32 {
    value + 1
}

#[test]
fn sync_function_accepts_tracing_backend_arguments() {
    let backend = OutputBackend::from_string("tracing").unwrap();
    let level = EventLevel::from_string("debug").unwrap();
    assert_eq!(backend, OutputBackend::Tracing);
    assert_eq!(level, EventLevel::Debug);
    let args = MacroArgs {
        print: Some("never".to_string()),
        backend: Some(backend),
        level: Some(level),
        ..MacroArgs::default()
    };
    assert!(instrumentation_plan(&args, "sync_tracing_backend", true, true).is_none());
    assert_eq!(sync_tracing_backend(41), 42);
}
