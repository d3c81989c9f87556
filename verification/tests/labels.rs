use exec_time::{build_label, instrumentation_plan, EventLevel, MacroArgs, Sink, TimeUnit, DurationThreshold};

fn some(s: &str) -> Option<String> {
    Some(s.to_string())
}

#[test]
fn label_defaults_to_the_function_name() {
    assert_eq!(build_label("login", &MacroArgs::default()), "login");
}

#[test]
fn prefix_and_suffix_surround_the_name() {
    let args = MacroArgs { prefix: some("auth"), ..MacroArgs::default() };
    assert_eq!(build_label("login", &args), "auth::login");
    let args = MacroArgs { suffix: some("v2"), ..MacroArgs::default() };
    assert_eq!(build_label("login", &args), "login::v2");
    let args = MacroArgs { prefix: some("auth"), suffix: some("v2"), ..MacroArgs::default() };
    assert_eq!(build_label("login", &args), "auth::login::v2");
}

#[test]
fn name_replaces_the_label() {
    let args = MacroArgs {
        name: some("cache.lookup"),
        prefix: some("auth"),
        suffix: some("v2"),
        ..MacroArgs::default()
    };
    assert_eq!(build_label("lookup", &args), "cache.lookup");
}

#[test]
fn print_chooses_whether_to_time() {
    let with = |p: Option<String>| MacroArgs { print: p, ..MacroArgs::default() };
    assert!(with(None).print_enabled(false));
    assert!(with(some("always")).print_enabled(false));
    assert!(with(some("debug")).print_enabled(true));
    assert!(!with(some("debug")).print_enabled(false));
    assert!(!with(some("never")).print_enabled(true));
    assert!(!with(some("sometimes")).print_enabled(true));
}

#[test]
fn plan_uses_defaults() {
    let plan = instrumentation_plan(&MacroArgs::default(), "run", true, false).unwrap();
    assert_eq!(plan.label, "run");
    assert_eq!(plan.normal.sink, Sink::StdoutLine);
    assert_eq!(plan.normal.unit, TimeUnit::Ms);
    assert_eq!(plan.warn.sink, Sink::StderrLine);
    assert!(!plan.has_thresholds());
}

#[test]
fn plan_follows_the_arguments() {
    let args = MacroArgs {
        name: some("worker.job"),
        unit: Some(TimeUnit::Us),
        level: Some(EventLevel::Debug),
        log_over: Some(DurationThreshold(500_000)),
        ..MacroArgs::default()
    };
    let plan = instrumentation_plan(&args, "run_named", false, true).unwrap();
    assert_eq!(plan.label, "worker.job");
    assert_eq!(plan.normal.sink, Sink::Tracing(EventLevel::Debug));
    assert_eq!(plan.normal.unit, TimeUnit::Us);
    assert_eq!(plan.log_over, Some(500_000));
    assert_eq!(plan.warn_over, None);
}
