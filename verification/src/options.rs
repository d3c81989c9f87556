//! The enumerated option values of the attribute (`backend`, `level`,
//! `unit`) and how each is read from its text.
use vstd::prelude::*;
use crate::text::str_eq;

verus! {

/// Where the timing line goes.
#[derive(Clone, Copy, Debug, PartialEq, Eq, Structural)]
pub enum OutputBackend {
    /// `tracing` where that feature is on, standard output otherwise.
    Auto,
    Stdout,
    Tracing,
}

/// The level of a `tracing` event.
#[derive(Clone, Copy, Debug, PartialEq, Eq, Structural)]
pub enum EventLevel {
    Trace,
    Debug,
    Info,
    Warn,
    Error,
}

/// The unit in which an elapsed time is reported.
#[derive(Clone, Copy, Debug, PartialEq, Eq, Structural)]
pub enum TimeUnit {
    Ns,
    Us,
    Ms,
    S,
}

/// An option was given a value that it does not accept; `value` is the
/// text as it was given.
#[derive(Clone, Debug)]
pub struct UnknownValue {
    pub value: String,
}

/// The error for `value`.
pub fn unknown_value(value: &str) -> (e: UnknownValue)
    ensures
        e.value@ == value@,
{
    UnknownValue { value: value.to_owned() }
}

/// The backend that a `backend = "..."` text names.
pub open spec fn spec_backend_named(s: Seq<char>) -> Option<OutputBackend> {
    if s == "auto"@ {
        Some(OutputBackend::Auto)
    } else if s == "stdout"@ {
        Some(OutputBackend::Stdout)
    } else if s == "tracing"@ {
        Some(OutputBackend::Tracing)
    } else {
        None
    }
}

/// The level that a `level = "..."` text names.
pub open spec fn spec_level_named(s: Seq<char>) -> Option<EventLevel> {
    if s == "trace"@ {
        Some(EventLevel::Trace)
    } else if s == "debug"@ {
        Some(EventLevel::Debug)
    } else if s == "info"@ {
        Some(EventLevel::Info)
    } else if s == "warn"@ {
        Some(EventLevel::Warn)
    } else if s == "error"@ {
        Some(EventLevel::Error)
    } else {
        None
    }
}

/// The unit that a `unit = "..."` text names.
pub open spec fn spec_unit_named(s: Seq<char>) -> Option<TimeUnit> {
    if s == "ns"@ {
        Some(TimeUnit::Ns)
    } else if s == "us"@ {
        Some(TimeUnit::Us)
    } else if s == "ms"@ {
        Some(TimeUnit::Ms)
    } else if s == "s"@ {
        Some(TimeUnit::S)
    } else {
        None
    }
}

/// The short name of a unit.
pub open spec fn spec_unit_name(u: TimeUnit) -> Seq<char> {
    match u {
        TimeUnit::Ns => "ns"@,
        TimeUnit::Us => "us"@,
        TimeUnit::Ms => "ms"@,
        TimeUnit::S => "s"@,
    }
}

/// The text of the `format!` call that renders the message body, with
/// the label and the elapsed value as its two arguments.
pub open spec fn spec_message_format(u: TimeUnit) -> Seq<char> {
    match u {
        TimeUnit::Ns => "{} took {} ns"@,
        TimeUnit::Us => "{} took {} us"@,
        TimeUnit::Ms => "{} took {} ms"@,
        TimeUnit::S => "{} took {:.3} s"@,
    }
}

impl OutputBackend {
    /// Reads a `backend` value: `auto`, `stdout` or `tracing`.
    pub fn from_string(value: &str) -> (r: Result<OutputBackend, UnknownValue>)
        ensures
            match r {
                Ok(b) => spec_backend_named(value@) == Some(b),
                Err(e) => spec_backend_named(value@).is_none() && e.value@ == value@,
            },
    {
        if str_eq(value, "auto") {
            Ok(OutputBackend::Auto)
        } else if str_eq(value, "stdout") {
            Ok(OutputBackend::Stdout)
        } else if str_eq(value, "tracing") {
            Ok(OutputBackend::Tracing)
        } else {
            Err(unknown_value(value))
        }
    }
}

impl Default for OutputBackend {
    fn default() -> (r: OutputBackend)
        ensures
            r == OutputBackend::Auto,
    {
        OutputBackend::Auto
    }
}

impl EventLevel {
    /// Reads a `level` value: `trace`, `debug`, `info`, `warn` or `error`.
    pub fn from_string(value: &str) -> (r: Result<EventLevel, UnknownValue>)
        ensures
            match r {
                Ok(l) => spec_level_named(value@) == Some(l),
                Err(e) => spec_level_named(value@).is_none() && e.value@ == value@,
            },
    {
        if str_eq(value, "trace") {
            Ok(EventLevel::Trace)
        } else if str_eq(value, "debug") {
            Ok(EventLevel::Debug)
        } else if str_eq(value, "info") {
            Ok(EventLevel::Info)
        } else if str_eq(value, "warn") {
            Ok(EventLevel::Warn)
        } else if str_eq(value, "error") {
            Ok(EventLevel::Error)
        } else {
            Err(unknown_value(value))
        }
    }
}

impl Default for EventLevel {
    fn default() -> (r: EventLevel)
        ensures
            r == EventLevel::Info,
    {
        EventLevel::Info
    }
}

impl TimeUnit {
    /// Reads a `unit` value: `ns`, `us`, `ms` or `s`.
    pub fn from_string(value: &str) -> (r: Result<TimeUnit, UnknownValue>)
        ensures
            match r {
                Ok(u) => spec_unit_named(value@) == Some(u),
                Err(e) => spec_unit_named(value@).is_none() && e.value@ == value@,
            },
    {
        if str_eq(value, "ns") {
            Ok(TimeUnit::Ns)
        } else if str_eq(value, "us") {
            Ok(TimeUnit::Us)
        } else if str_eq(value, "ms") {
            Ok(TimeUnit::Ms)
        } else if str_eq(value, "s") {
            Ok(TimeUnit::S)
        } else {
            Err(unknown_value(value))
        }
    }

    /// The unit's short name, as the `elapsed_unit` field of an event
    /// carries it.
    pub fn as_str(self) -> (r: &'static str)
        ensures
            r@ == spec_unit_name(self),
    {
        match self {
            TimeUnit::Ns => "ns",
            TimeUnit::Us => "us",
            TimeUnit::Ms => "ms",
            TimeUnit::S => "s",
        }
    }

    /// The format text of the message body in this unit: the label, then
    /// `took`, the elapsed value (seconds with three decimals) and the
    /// unit's name.
    pub fn message_format(self) -> (r: &'static str)
        ensures
            r@ == spec_message_format(self),
    {
        match self {
            TimeUnit::Ns => "{} took {} ns",
            TimeUnit::Us => "{} took {} us",
            TimeUnit::Ms => "{} took {} ms",
            TimeUnit::S => "{} took {:.3} s",
        }
    }
}

impl Default for TimeUnit {
    fn default() -> (r: TimeUnit)
        ensures
            r == TimeUnit::Ms,
    {
        TimeUnit::Ms
    }
}

/// A unit's name reads back as that unit.
pub proof fn lemma_unit_name_round_trip(u: TimeUnit)
    ensures
        spec_unit_named(spec_unit_name(u)) == Some(u),
{
    reveal_strlit("ns");
    reveal_strlit("us");
    reveal_strlit("ms");
    reveal_strlit("s");
    assert("us"@[0] != "ns"@[0]);
    assert("ms"@[0] != "ns"@[0]);
    assert("ms"@[0] != "us"@[0]);
    assert("s"@.len() != "ns"@.len());
}

/// Each backend name reads as its backend.
pub proof fn lemma_backend_names()
    ensures
        spec_backend_named("auto"@) == Some(OutputBackend::Auto),
        spec_backend_named("stdout"@) == Some(OutputBackend::Stdout),
        spec_backend_named("tracing"@) == Some(OutputBackend::Tracing),
{
    reveal_strlit("auto");
    reveal_strlit("stdout");
    reveal_strlit("tracing");
    assert("stdout"@[0] != "auto"@[0]);
    assert("tracing"@[0] != "auto"@[0]);
    assert("tracing"@[0] != "stdout"@[0]);
}

/// Each level name reads as its level.
pub proof fn lemma_level_names()
    ensures
        spec_level_named("trace"@) == Some(EventLevel::Trace),
        spec_level_named("debug"@) == Some(EventLevel::Debug),
        spec_level_named("info"@) == Some(EventLevel::Info),
        spec_level_named("warn"@) == Some(EventLevel::Warn),
        spec_level_named("error"@) == Some(EventLevel::Error),
{
    reveal_strlit("trace");
    reveal_strlit("debug");
    reveal_strlit("info");
    reveal_strlit("warn");
    reveal_strlit("error");
    assert("debug"@[0] != "trace"@[0]);
    assert("info"@[0] != "trace"@[0]);
    assert("info"@[0] != "debug"@[0]);
    assert("warn"@[0] != "trace"@[0]);
    assert("warn"@[0] != "debug"@[0]);
    assert("warn"@[0] != "info"@[0]);
    assert("error"@[0] != "trace"@[0]);
    assert("error"@[0] != "debug"@[0]);
    assert("error"@[0] != "info"@[0]);
    assert("error"@[0] != "warn"@[0]);
}

/// Each unit name reads as its unit, and is the name `as_str` gives.
pub proof fn lemma_unit_names()
    ensures
        spec_unit_named("ns"@) == Some(TimeUnit::Ns),
        spec_unit_named("us"@) == Some(TimeUnit::Us),
        spec_unit_named("ms"@) == Some(TimeUnit::Ms),
        spec_unit_named("s"@) == Some(TimeUnit::S),
        spec_unit_name(TimeUnit::Ns) == "ns"@,
        spec_unit_name(TimeUnit::Us) == "us"@,
        spec_unit_name(TimeUnit::Ms) == "ms"@,
        spec_unit_name(TimeUnit::S) == "s"@,
{
    lemma_unit_name_round_trip(TimeUnit::Ns);
    lemma_unit_name_round_trip(TimeUnit::Us);
    lemma_unit_name_round_trip(TimeUnit::Ms);
    lemma_unit_name_round_trip(TimeUnit::S);
}

/// The message body of a unit is the label, ` took `, the value and the
/// unit's name, the value of seconds with three decimals.
pub proof fn lemma_message_format_names_unit(u: TimeUnit)
    ensures
        u != TimeUnit::S ==> spec_message_format(u) == "{} took {} "@ + spec_unit_name(u),
        spec_message_format(TimeUnit::S) == "{} took {:.3} "@ + spec_unit_name(TimeUnit::S),
{
    reveal_strlit("{} took {} ns");
    reveal_strlit("{} took {} us");
    reveal_strlit("{} took {} ms");
    reveal_strlit("{} took {:.3} s");
    reveal_strlit("{} took {} ");
    reveal_strlit("{} took {:.3} ");
    reveal_strlit("ns");
    reveal_strlit("us");
    reveal_strlit("ms");
    reveal_strlit("s");
    assert("{} took {} ns"@ =~= "{} took {} "@ + "ns"@);
    assert("{} took {} us"@ =~= "{} took {} "@ + "us"@);
    assert("{} took {} ms"@ =~= "{} took {} "@ + "ms"@);
    assert("{} took {:.3} s"@ =~= "{} took {:.3} "@ + "s"@);
}

} // verus!
