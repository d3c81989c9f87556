use exec_time::text::{parse_u64, str_eq, strip_suffix, trim};

#[test]
fn trim_matches_std() {
    for s in ["", "  ", " a ", "\u{3000}x\u{2028}", "a b", "\n\t z\r"] {
        assert_eq!(trim(s), s.trim());
    }
}

#[test]
fn strip_suffix_matches_std() {
    for (s, p) in [("5ms", "ms"), ("5ms", "s"), ("ms", "ms"), ("s", "ms"), ("é s", "s"), ("abc", "")] {
        assert_eq!(strip_suffix(s, p), s.strip_suffix(p));
    }
}

#[test]
fn parse_u64_matches_std() {
    for s in ["0", "42", "+7", "+", "", "-1", "1 ", "007", "18446744073709551615", "18446744073709551616", "99999999999999999999999"] {
        assert_eq!(parse_u64(s), s.parse::<u64>().ok(), "{}", s);
    }
}

#[test]
fn str_eq_compares_characters() {
    assert!(str_eq("auto", "auto"));
    assert!(!str_eq("auto", "autos"));
    assert!(!str_eq("", "a"));
}

#[test]
fn white_space_matches_std() {
    for code in 0u32..0x3100 {
        if let Some(c) = char::from_u32(code) {
            assert_eq!(exec_time::text::is_white_space(c), c.is_whitespace(), "{:x}", code);
        }
    }
    assert!(!exec_time::text::is_white_space('\u{feff}'));
}

#[test]
fn trimming_twice_is_trimming_once() {
    for s in [" \u{2003}a b\u{85} ", "x", "   "] {
        assert_eq!(trim(trim(s)), trim(s));
    }
}
