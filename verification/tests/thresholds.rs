use exec_time::{parse_duration_threshold, DurationThreshold, ParsedThreshold};

fn exact(text: &str) -> Option<u128> {
    match parse_duration_threshold(text) {
        Ok(ParsedThreshold::Exact(d)) => Some(d.as_nanos()),
        _ => None,
    }
}

#[test]
fn whole_units_give_exact_nanoseconds() {
    assert_eq!(exact("500us"), Some(500_000));
    assert_eq!(exact("5ms"), Some(5_000_000));
    assert_eq!(exact("250ms"), Some(250_000_000));
    assert_eq!(exact("1ms"), Some(1_000_000));
    assert_eq!(exact("50ms"), Some(50_000_000));
    assert_eq!(exact("7ns"), Some(7));
    assert_eq!(exact("0ns"), Some(0));
}

#[test]
fn units_scale_by_a_thousand() {
    assert_eq!(exact("3us"), exact("3000ns"));
    assert_eq!(exact("3ms"), exact("3000us"));
}

#[test]
fn largest_whole_amounts_fit() {
    assert_eq!(exact("18446744073709551615ns"), Some(u64::MAX as u128));
    assert_eq!(exact("18446744073709551615ms"), Some(u64::MAX as u128 * 1_000_000));
    assert!(parse_duration_threshold("18446744073709551616ns").is_err());
}

#[test]
fn white_space_and_plus_sign_are_accepted() {
    assert_eq!(exact("  5 ms "), Some(5_000_000));
    assert_eq!(exact("\t12\u{a0}us"), Some(12_000));
    assert_eq!(exact("+8ns"), Some(8));
}

#[test]
fn seconds_are_handed_back_as_text() {
    match parse_duration_threshold("0.5s") {
        Ok(ParsedThreshold::Seconds(t)) => assert_eq!(t, "0.5"),
        other => panic!("unexpected {:?}", other),
    }
    match parse_duration_threshold(" 2 s") {
        Ok(ParsedThreshold::Seconds(t)) => assert_eq!(t, "2"),
        other => panic!("unexpected {:?}", other),
    }
}

#[test]
fn malformed_thresholds_are_unknown_values() {
    for text in ["", "5", "ms", " s ", "5 m", "-5ms", "5.5ms", "++5ns", "5_000us", "five ms"] {
        let err = parse_duration_threshold(text).unwrap_err();
        assert_eq!(err.value, text);
    }
}

#[test]
fn threshold_nanoseconds_are_kept() {
    assert_eq!(DurationThreshold(1234).as_nanos(), 1234);
}

#[test]
fn outer_white_space_is_ignored() {
    for text in ["5ms", "+12us", "9ns"] {
        let padded = format!(" \t{}\u{3000}", text);
        assert_eq!(exact(&padded), exact(text));
    }
}

#[test]
fn whole_units_scale_from_nanoseconds() {
    let ns = exact("42ns").unwrap();
    assert_eq!(exact("42us"), Some(ns * 1_000));
    assert_eq!(exact("42ms"), Some(ns * 1_000_000));
}
