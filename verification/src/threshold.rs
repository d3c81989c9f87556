//! Duration thresholds (`log_over`, `warn_over`): a number followed by
//! one of the units `ns`, `us`, `ms`, `s`, such as `500us`, `5ms` or `0.5s`.
use vstd::prelude::*;
use crate::options::{TimeUnit, UnknownValue, unknown_value, spec_unit_name};
use crate::text::{
    trim, strip_suffix, parse_u64, spec_trim, spec_strip_suffix, spec_parse_u64,
    lemma_trim_idempotent, lemma_trim_keeps_clean_text, lemma_strip_suffix_inverts_concat,
    spec_all_digits, spec_is_ascii_digit,
};

verus! {

/// A threshold, in nanoseconds.
#[derive(Clone, Copy, Debug, PartialEq, Eq, Structural)]
pub struct DurationThreshold(pub u128);

impl DurationThreshold {
    /// The threshold in nanoseconds.
    pub fn as_nanos(self) -> (r: u128)
        ensures
            r == self.0,
    {
        self.0
    }
}

/// A threshold text that was read: either an exact whole number of
/// nanoseconds, microseconds or milliseconds, or an amount of seconds,
/// kept as its decimal text, that still has to be read as a floating-point
/// number of seconds.
#[derive(Clone, Debug)]
pub enum ParsedThreshold {
    Exact(DurationThreshold),
    Seconds(String),
}

/// How many nanoseconds one of the unit makes.
pub open spec fn spec_nanos_per(u: TimeUnit) -> nat {
    match u {
        TimeUnit::Ns => 1,
        TimeUnit::Us => 1_000,
        TimeUnit::Ms => 1_000_000,
        TimeUnit::S => 1_000_000_000,
    }
}

/// The first of the units `ns`, `us`, `ms`, `s`, in that order, that `t`
/// ends with.
pub open spec fn spec_unit_suffix(t: Seq<char>) -> Option<TimeUnit> {
    if spec_strip_suffix(t, "ns"@) is Some {
        Some(TimeUnit::Ns)
    } else if spec_strip_suffix(t, "us"@) is Some {
        Some(TimeUnit::Us)
    } else if spec_strip_suffix(t, "ms"@) is Some {
        Some(TimeUnit::Ms)
    } else if spec_strip_suffix(t, "s"@) is Some {
        Some(TimeUnit::S)
    } else {
        None
    }
}

/// The unit of a threshold text and its amount: the text is trimmed, its
/// unit taken off its end, and what remains trimmed again.
pub open spec fn spec_threshold_parts(value: Seq<char>) -> Option<(TimeUnit, Seq<char>)> {
    let t = spec_trim(value);
    match spec_unit_suffix(t) {
        Some(u) => Some((u, spec_trim(spec_strip_suffix(t, spec_unit_name(u))->0))),
        None => None,
    }
}

/// The nanoseconds of a threshold given as a whole number of `ns`, `us`
/// or `ms`.
pub open spec fn spec_exact_threshold(value: Seq<char>) -> Option<u128> {
    match spec_threshold_parts(value) {
        Some((u, a)) => if u != TimeUnit::S && a.len() > 0 && spec_parse_u64(a) is Some {
            Some((spec_parse_u64(a)->0 * spec_nanos_per(u)) as u128)
        } else {
            None
        },
        None => None,
    }
}

/// The amount text of a threshold given in seconds.
pub open spec fn spec_seconds_amount(value: Seq<char>) -> Option<Seq<char>> {
    match spec_threshold_parts(value) {
        Some((u, a)) => if u == TimeUnit::S && a.len() > 0 {
            Some(a)
        } else {
            None
        },
        None => None,
    }
}

/// Takes the unit off the end of a trimmed threshold text.
fn split_unit<'a>(t: &'a str) -> (r: Option<(TimeUnit, &'a str)>)
    ensures
        match r {
            Some((u, n)) => spec_unit_suffix(t@) == Some(u) && spec_strip_suffix(
                t@,
                spec_unit_name(u),
            ) == Some(n@),
            None => spec_unit_suffix(t@).is_none(),
        },
{
    if let Some(n) = strip_suffix(t, "ns") {
        return Some((TimeUnit::Ns, n));
    }
    if let Some(n) = strip_suffix(t, "us") {
        return Some((TimeUnit::Us, n));
    }
    if let Some(n) = strip_suffix(t, "ms") {
        return Some((TimeUnit::Ms, n));
    }
    if let Some(n) = strip_suffix(t, "s") {
        return Some((TimeUnit::S, n));
    }
    None
}

/// Reads a threshold text. A whole number of `ns`, `us` or `ms` (an
/// optional `+` and decimal digits that fit in a `u64`) gives its exact
/// nanoseconds; an amount of `s` is handed back as text; anything else is
/// an unknown value.
pub fn parse_duration_threshold(value: &str) -> (r: Result<ParsedThreshold, UnknownValue>)
    ensures
        match r {
            Ok(ParsedThreshold::Exact(d)) => spec_exact_threshold(value@) == Some(d.0),
            Ok(ParsedThreshold::Seconds(t)) => spec_seconds_amount(value@) == Some(t@),
            Err(e) => spec_exact_threshold(value@).is_none() && spec_seconds_amount(
                value@,
            ).is_none() && e.value@ == value@,
        },
{
    let trimmed = trim(value);
    match split_unit(trimmed) {
        None => Err(unknown_value(value)),
        Some((unit, number)) => {
            let amount = trim(number);
            if amount.is_empty() {
                return Err(unknown_value(value));
            }
            match unit {
                TimeUnit::S => Ok(ParsedThreshold::Seconds(amount.to_owned())),
                _ => match parse_u64(amount) {
                    None => Err(unknown_value(value)),
                    Some(n) => {
                        let nanos: u128 = match unit {
                            TimeUnit::Ns => n as u128,
                            TimeUnit::Us => n as u128 * 1_000,
                            _ => n as u128 * 1_000_000,
                        };
                        Ok(ParsedThreshold::Exact(DurationThreshold(nanos)))
                    },
                },
            }
        },
    }
}

/// White space around a threshold text changes nothing: the text reads
/// as the same threshold as its trimmed self.
pub proof fn lemma_threshold_ignores_outer_white_space(value: Seq<char>)
    ensures
        spec_exact_threshold(spec_trim(value)) == spec_exact_threshold(value),
        spec_seconds_amount(spec_trim(value)) == spec_seconds_amount(value),
{
    lemma_trim_idempotent(value);
}

/// A whole number of microseconds is a thousand times the same number of
/// nanoseconds, and a whole number of milliseconds a million times it.
pub proof fn lemma_whole_units_scale(
    value_ns: Seq<char>,
    value_us: Seq<char>,
    value_ms: Seq<char>,
    amount: Seq<char>,
)
    requires
        spec_parse_u64(amount) is Some,
        spec_threshold_parts(value_ns) == Some((TimeUnit::Ns, amount)),
        spec_threshold_parts(value_us) == Some((TimeUnit::Us, amount)),
        spec_threshold_parts(value_ms) == Some((TimeUnit::Ms, amount)),
    ensures
        spec_exact_threshold(value_ns) == Some(spec_parse_u64(amount)->0 as u128),
        spec_exact_threshold(value_us) == Some((spec_parse_u64(amount)->0 * 1_000) as u128),
        spec_exact_threshold(value_ms) == Some((spec_parse_u64(amount)->0 * 1_000_000) as u128),
{
}

/// A threshold in seconds is handed back as exactly the trimmed amount
/// before its unit, and gives no exact nanoseconds.
pub proof fn lemma_seconds_amount_is_the_text(value: Seq<char>)
    ensures
        match spec_threshold_parts(value) {
            Some((u, a)) => (u == TimeUnit::S && a.len() > 0) ==> (spec_seconds_amount(value)
                == Some(a) && spec_exact_threshold(value) is None),
            None => spec_seconds_amount(value) is None,
        },
        match spec_seconds_amount(value) {
            Some(a) => spec_threshold_parts(value) == Some((TimeUnit::S, a)),
            None => true,
        },
{
}

/// A whole amount `n` of `ns`, `us` or `ms` is `n`, `1_000 * n` or
/// `1_000_000 * n` nanoseconds; an amount that does not read as a `u64`,
/// or a text without a unit, gives nothing.
pub proof fn lemma_exact_whole_units(value: Seq<char>)
    ensures
        match spec_threshold_parts(value) {
            Some((u, a)) => u != TimeUnit::S ==> match spec_parse_u64(a) {
                Some(n) => spec_seconds_amount(value) is None && spec_exact_threshold(value)
                    == Some(
                    match u {
                        TimeUnit::Ns => n as u128,
                        TimeUnit::Us => (n * 1_000) as u128,
                        _ => (n * 1_000_000) as u128,
                    },
                ),
                None => spec_exact_threshold(value) is None && spec_seconds_amount(value) is None,
            },
            None => spec_exact_threshold(value) is None && spec_seconds_amount(value) is None,
        },
{
    if let Some((u, a)) = spec_threshold_parts(value) {
        if spec_parse_u64(a) is Some {
            assert(crate::text::spec_unsigned_digits(a).len() > 0);
            assert(a.len() > 0);
        }
    }
}

proof fn lemma_no_suffix(t: Seq<char>, suffix: Seq<char>)
    requires
        0 < suffix.len() <= t.len(),
        t[t.len() - suffix.len()] != suffix[0],
    ensures
        spec_strip_suffix(t, suffix) is None,
{
    assert(t.subrange(t.len() - suffix.len(), t.len() as int)[0] != suffix[0]);
}

proof fn lemma_digits_not_white(ds: Seq<char>)
    requires
        ds.len() > 0,
        spec_all_digits(ds),
    ensures
        !crate::text::spec_is_white_space(ds[0]),
        !crate::text::spec_is_white_space(ds.last()),
        ds.last() != 'n' && ds.last() != 'u' && ds.last() != 'm',
{
    assert(spec_is_ascii_digit(ds[0]));
    assert(spec_is_ascii_digit(ds[ds.len() - 1]));
}

/// Digits followed by a unit name read as that unit with those digits as
/// the amount: `<digits>ns`, `<digits>us`, `<digits>ms`, `<digits>s`.
pub proof fn lemma_digits_with_unit(ds: Seq<char>)
    requires
        ds.len() > 0,
        spec_all_digits(ds),
    ensures
        spec_threshold_parts(ds + "ns"@) == Some((TimeUnit::Ns, ds)),
        spec_threshold_parts(ds + "us"@) == Some((TimeUnit::Us, ds)),
        spec_threshold_parts(ds + "ms"@) == Some((TimeUnit::Ms, ds)),
        spec_threshold_parts(ds + "s"@) == Some((TimeUnit::S, ds)),
{
    reveal_strlit("ns");
    reveal_strlit("us");
    reveal_strlit("ms");
    reveal_strlit("s");
    lemma_digits_not_white(ds);
    lemma_trim_keeps_clean_text(ds);
    let n = ds.len();
    let t_ns = ds + "ns"@;
    let t_us = ds + "us"@;
    let t_ms = ds + "ms"@;
    let t_s = ds + "s"@;
    assert(t_ns[0] == ds[0] && t_us[0] == ds[0] && t_ms[0] == ds[0] && t_s[0] == ds[0]);
    lemma_trim_keeps_clean_text(t_ns);
    lemma_trim_keeps_clean_text(t_us);
    lemma_trim_keeps_clean_text(t_ms);
    lemma_trim_keeps_clean_text(t_s);
    lemma_strip_suffix_inverts_concat(ds, "ns"@, t_ns);
    lemma_strip_suffix_inverts_concat(ds, "us"@, t_us);
    lemma_strip_suffix_inverts_concat(ds, "ms"@, t_ms);
    lemma_strip_suffix_inverts_concat(ds, "s"@, t_s);
    assert(t_us[n as int] == 'u');
    lemma_no_suffix(t_us, "ns"@);
    assert(t_ms[n as int] == 'm');
    lemma_no_suffix(t_ms, "ns"@);
    lemma_no_suffix(t_ms, "us"@);
    assert(t_s[n - 1] == ds.last());
    lemma_no_suffix(t_s, "ns"@);
    lemma_no_suffix(t_s, "us"@);
    lemma_no_suffix(t_s, "ms"@);
}

} // verus!
