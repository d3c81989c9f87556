use exec_time::{EventLevel, OutputBackend, TimeUnit};

#[test]
fn backend_names_are_read() {
    assert_eq!(OutputBackend::from_string("auto").unwrap(), OutputBackend::Auto);
    assert_eq!(OutputBackend::from_string("stdout").unwrap(), OutputBackend::Stdout);
    assert_eq!(OutputBackend::from_string("tracing").unwrap(), OutputBackend::Tracing);
}

#[test]
fn unknown_backend_is_refused_with_its_text() {
    let err = OutputBackend::from_string("Stdout").unwrap_err();
    assert_eq!(err.value, "Stdout");
    assert_eq!(OutputBackend::from_string("").unwrap_err().value, "");
    assert!(OutputBackend::from_string(" auto").is_err());
}

#[test]
fn level_names_are_read() {
    assert_eq!(EventLevel::from_string("trace").unwrap(), EventLevel::Trace);
    assert_eq!(EventLevel::from_string("debug").unwrap(), EventLevel::Debug);
    assert_eq!(EventLevel::from_string("info").unwrap(), EventLevel::Info);
    assert_eq!(EventLevel::from_string("warn").unwrap(), EventLevel::Warn);
    assert_eq!(EventLevel::from_string("error").unwrap(), EventLevel::Error);
    assert_eq!(EventLevel::from_string("warning").unwrap_err().value, "warning");
}

#[test]
fn unit_names_are_read() {
    assert_eq!(TimeUnit::from_string("ns").unwrap(), TimeUnit::Ns);
    assert_eq!(TimeUnit::from_string("us").unwrap(), TimeUnit::Us);
    assert_eq!(TimeUnit::from_string("ms").unwrap(), TimeUnit::Ms);
    assert_eq!(TimeUnit::from_string("s").unwrap(), TimeUnit::S);
    assert_eq!(TimeUnit::from_string("sec").unwrap_err().value, "sec");
}

#[test]
fn defaults_are_auto_info_and_ms() {
    assert_eq!(OutputBackend::default(), OutputBackend::Auto);
    assert_eq!(EventLevel::default(), EventLevel::Info);
    assert_eq!(TimeUnit::default(), TimeUnit::Ms);
}

#[test]
fn unit_names_read_back() {
    for unit in [TimeUnit::Ns, TimeUnit::Us, TimeUnit::Ms, TimeUnit::S] {
        assert_eq!(TimeUnit::from_string(unit.as_str()).unwrap(), unit);
    }
    assert_eq!(TimeUnit::Us.as_str(), "us");
}

#[test]
fn message_formats_name_the_unit() {
    assert_eq!(TimeUnit::Ns.message_format(), "{} took {} ns");
    assert_eq!(TimeUnit::Us.message_format(), "{} took {} us");
    assert_eq!(TimeUnit::Ms.message_format(), "{} took {} ms");
    assert_eq!(TimeUnit::S.message_format(), "{} took {:.3} s");
    assert_eq!(format!("{} took {} ms", "login", 102), "login took 102 ms");
}
