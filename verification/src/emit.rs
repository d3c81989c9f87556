//! Where a timing line goes, and when a timed call reports at all.
//!
//! An [`EmitStatement`] describes the statement that runs after the timed
//! call: the line it writes in the normal case, the line it writes as a
//! warning, and the two optional thresholds that choose between them.
use vstd::prelude::*;
use crate::options::{OutputBackend, EventLevel, TimeUnit};
use crate::threshold::DurationThreshold;

verus! {

/// Where one timing line is written.
#[derive(Clone, Copy, Debug, PartialEq, Eq, Structural)]
pub enum Sink {
    /// A line on standard output.
    StdoutLine,
    /// A warning line on standard error.
    StderrLine,
    /// A `tracing` event at the level.
    Tracing(EventLevel),
    /// The `tracing` backend was asked for without the `tracing` feature:
    /// the expansion is a compile error.
    TracingUnavailable,
}

/// One way of reporting: the sink and the unit of the elapsed value.
#[derive(Clone, Copy, Debug, PartialEq, Eq, Structural)]
pub struct Emitter {
    pub sink: Sink,
    pub unit: TimeUnit,
}

/// What a timed call reports.
#[derive(Clone, Copy, Debug, PartialEq, Eq, Structural)]
pub enum Emission {
    /// Nothing.
    Skip,
    /// The normal line.
    Normal,
    /// The warning line.
    Warn,
}

/// The statement that reports a timed call labelled `label`.
#[derive(Clone, Debug)]
pub struct EmitStatement {
    pub label: String,
    pub normal: Emitter,
    pub warn: Emitter,
    /// `log_over`, in nanoseconds.
    pub log_over: Option<u128>,
    /// `warn_over`, in nanoseconds.
    pub warn_over: Option<u128>,
}

/// The sink of a backend. `Auto` is `tracing` where the feature is on and
/// standard output otherwise; standard output writes warnings to standard
/// error; `tracing` without the feature cannot expand.
pub open spec fn spec_backend_sink(
    backend: OutputBackend,
    level: EventLevel,
    warn: bool,
    tracing_enabled: bool,
) -> Sink {
    match backend {
        OutputBackend::Auto => if tracing_enabled {
            Sink::Tracing(level)
        } else if warn {
            Sink::StderrLine
        } else {
            Sink::StdoutLine
        },
        OutputBackend::Stdout => if warn {
            Sink::StderrLine
        } else {
            Sink::StdoutLine
        },
        OutputBackend::Tracing => if tracing_enabled {
            Sink::Tracing(level)
        } else {
            Sink::TracingUnavailable
        },
    }
}

/// What the report after a call that took `elapsed` nanoseconds is. With no
/// threshold every call is reported; otherwise a call at or over
/// `warn_over` warns, one at or over `log_over` (and under `warn_over`) is
/// reported normally, and any other is not reported.
pub open spec fn spec_select_emission(
    elapsed: u128,
    log_over: Option<u128>,
    warn_over: Option<u128>,
) -> Emission {
    if log_over is None && warn_over is None {
        Emission::Normal
    } else if warn_over is Some && elapsed >= warn_over->0 {
        Emission::Warn
    } else if log_over is Some && elapsed >= log_over->0 {
        Emission::Normal
    } else {
        Emission::Skip
    }
}

/// The text of the line format (a `println!` or `eprintln!` format with the
/// message body as its one argument) of a sink that writes lines.
pub open spec fn spec_line_format(sink: Sink) -> Option<Seq<char>> {
    match sink {
        Sink::StdoutLine => Some("[exec_time] {}"@),
        Sink::StderrLine => Some("[exec_time][warn] [exec_time] {}"@),
        _ => None,
    }
}

/// A rank of emissions: nothing, normal, warning.
pub open spec fn spec_emission_rank(e: Emission) -> int {
    match e {
        Emission::Skip => 0,
        Emission::Normal => 1,
        Emission::Warn => 2,
    }
}

impl Sink {
    /// The line format of a standard-output or standard-error sink: the
    /// `[exec_time] ` prefix, which a warning line carries after
    /// `[exec_time][warn] `. A `tracing` sink writes no line.
    pub fn line_format(self) -> (r: Option<&'static str>)
        ensures
            match r {
                Some(f) => spec_line_format(self) == Some(f@),
                None => spec_line_format(self).is_none(),
            },
    {
        match self {
            Sink::StdoutLine => Some("[exec_time] {}"),
            Sink::StderrLine => Some("[exec_time][warn] [exec_time] {}"),
            _ => None,
        }
    }
}

/// The sink of the standard-output backend.
fn stdout_sink(warn: bool) -> (r: Sink)
    ensures
        r == spec_backend_sink(OutputBackend::Stdout, EventLevel::Info, warn, false),
{
    if warn {
        Sink::StderrLine
    } else {
        Sink::StdoutLine
    }
}

/// The sink of the `tracing` backend.
fn tracing_sink(level: EventLevel, tracing_enabled: bool) -> (r: Sink)
    ensures
        r == spec_backend_sink(OutputBackend::Tracing, level, false, tracing_enabled),
{
    if tracing_enabled {
        Sink::Tracing(level)
    } else {
        Sink::TracingUnavailable
    }
}

/// The sink of the `auto` backend.
pub fn auto_backend_sink(level: EventLevel, warn: bool, tracing_enabled: bool) -> (r: Sink)
    ensures
        r == spec_backend_sink(OutputBackend::Auto, level, warn, tracing_enabled),
{
    if tracing_enabled {
        tracing_sink(level, tracing_enabled)
    } else {
        stdout_sink(warn)
    }
}

/// The sink of a backend for a normal (`warn` false) or warning line.
pub fn backend_sink(backend: OutputBackend, level: EventLevel, warn: bool, tracing_enabled: bool) -> (r:
    Sink)
    ensures
        r == spec_backend_sink(backend, level, warn, tracing_enabled),
{
    match backend {
        OutputBackend::Auto => auto_backend_sink(level, warn, tracing_enabled),
        OutputBackend::Stdout => stdout_sink(warn),
        OutputBackend::Tracing => tracing_sink(level, tracing_enabled),
    }
}

/// The nanoseconds of an optional threshold.
fn threshold_nanos(t: Option<DurationThreshold>) -> (r: Option<u128>)
    ensures
        r == match t {
            Some(d) => Some(d.0),
            None => None::<u128>,
        },
{
    match t {
        Some(d) => Some(d.as_nanos()),
        None => None,
    }
}

/// The statement that reports a call labelled `label`: normal lines go
/// to the backend at `level`, warning lines to the backend at
/// `EventLevel::Warn`, both in `unit`.
pub fn emit_statement(
    label: &str,
    backend: OutputBackend,
    level: EventLevel,
    unit: TimeUnit,
    log_over: Option<DurationThreshold>,
    warn_over: Option<DurationThreshold>,
    tracing_enabled: bool,
) -> (r: EmitStatement)
    ensures
        r.label@ == label@,
        r.normal == (Emitter { sink: spec_backend_sink(backend, level, false, tracing_enabled), unit }),
        r.warn == (Emitter {
            sink: spec_backend_sink(backend, EventLevel::Warn, true, tracing_enabled),
            unit,
        }),
        r.log_over == match log_over {
            Some(d) => Some(d.0),
            None => None::<u128>,
        },
        r.warn_over == match warn_over {
            Some(d) => Some(d.0),
            None => None::<u128>,
        },
{
    let normal = Emitter { sink: backend_sink(backend, level, false, tracing_enabled), unit };
    let warn = Emitter {
        sink: backend_sink(backend, EventLevel::Warn, true, tracing_enabled),
        unit,
    };
    EmitStatement {
        label: label.to_owned(),
        normal,
        warn,
        log_over: threshold_nanos(log_over),
        warn_over: threshold_nanos(warn_over),
    }
}

impl EmitStatement {
    /// Whether a threshold is set; without one the normal line is written
    /// after every call.
    pub fn has_thresholds(&self) -> (r: bool)
        ensures
            r == (self.log_over is Some || self.warn_over is Some),
    {
        self.log_over.is_some() || self.warn_over.is_some()
    }

    /// What is reported after a call that took `elapsed_nanos`.
    pub fn emission(&self, elapsed_nanos: u128) -> (r: Emission)
        ensures
            r == spec_select_emission(elapsed_nanos, self.log_over, self.warn_over),
    {
        select_emission(elapsed_nanos, self.log_over, self.warn_over)
    }
}

/// What is reported after a call that took `elapsed_nanos`, given the
/// thresholds in nanoseconds.
pub fn select_emission(elapsed_nanos: u128, log_over: Option<u128>, warn_over: Option<u128>) -> (r:
    Emission)
    ensures
        r == spec_select_emission(elapsed_nanos, log_over, warn_over),
{
    if log_over.is_none() && warn_over.is_none() {
        return Emission::Normal;
    }
    if let Some(threshold) = warn_over {
        if elapsed_nanos >= threshold {
            Emission::Warn
        } else if let Some(threshold) = log_over {
            if elapsed_nanos >= threshold {
                Emission::Normal
            } else {
                Emission::Skip
            }
        } else {
            Emission::Skip
        }
    } else if let Some(threshold) = log_over {
        if elapsed_nanos >= threshold {
            Emission::Normal
        } else {
            Emission::Skip
        }
    } else {
        Emission::Skip
    }
}

/// Without thresholds, every call is reported with the normal line.
pub proof fn lemma_no_threshold_always_reports(elapsed: u128)
    ensures
        spec_select_emission(elapsed, None, None) == Emission::Normal,
{
}

/// `warn_over` takes precedence over `log_over`: a call at or over
/// `warn_over` warns, whatever `log_over` is.
pub proof fn lemma_warn_takes_precedence(elapsed: u128, log_over: Option<u128>, warn_over: u128)
    requires
        elapsed >= warn_over,
    ensures
        spec_select_emission(elapsed, log_over, Some(warn_over)) == Emission::Warn,
{
}

/// With `log_over` alone, a call is reported exactly when it took at
/// least `log_over`, and never as a warning.
pub proof fn lemma_log_over_alone(elapsed: u128, log_over: u128)
    ensures
        spec_select_emission(elapsed, Some(log_over), None) == (if elapsed >= log_over {
            Emission::Normal
        } else {
            Emission::Skip
        }),
{
}

/// With `warn_over` alone, a call is reported exactly when it took at
/// least `warn_over`, and then as a warning.
pub proof fn lemma_warn_over_alone(elapsed: u128, warn_over: u128)
    ensures
        spec_select_emission(elapsed, None, Some(warn_over)) == (if elapsed >= warn_over {
            Emission::Warn
        } else {
            Emission::Skip
        }),
{
}

/// Where a threshold is set, a call under every threshold that is set is
/// not reported.
pub proof fn lemma_under_thresholds_is_silent(
    elapsed: u128,
    log_over: Option<u128>,
    warn_over: Option<u128>,
)
    requires
        log_over is Some || warn_over is Some,
        log_over is Some ==> elapsed < log_over->0,
        warn_over is Some ==> elapsed < warn_over->0,
    ensures
        spec_select_emission(elapsed, log_over, warn_over) == Emission::Skip,
{
}

/// A slower call is reported at least as loudly as a faster one under the
/// same thresholds.
pub proof fn lemma_emission_monotone(
    fast: u128,
    slow: u128,
    log_over: Option<u128>,
    warn_over: Option<u128>,
)
    requires
        fast <= slow,
    ensures
        spec_emission_rank(spec_select_emission(fast, log_over, warn_over)) <= spec_emission_rank(
            spec_select_emission(slow, log_over, warn_over),
        ),
{
}

/// A warning line goes to standard error and a normal one to standard
/// output, with the standard-output backend, and with `auto` where the
/// `tracing` feature is off.
pub proof fn lemma_warnings_on_stderr(backend: OutputBackend, level: EventLevel)
    requires
        backend != OutputBackend::Tracing,
    ensures
        spec_backend_sink(backend, level, true, false) == Sink::StderrLine,
        spec_backend_sink(backend, level, false, false) == Sink::StdoutLine,
{
}

/// A call that met `log_over` but not `warn_over` (or with no `warn_over`)
/// is reported with the normal line, whatever `warn_over` is.
pub proof fn lemma_log_over_met_under_warn_over(
    elapsed: u128,
    log_over: u128,
    warn_over: Option<u128>,
)
    requires
        log_over <= elapsed,
        warn_over is Some ==> elapsed < warn_over->0,
    ensures
        spec_select_emission(elapsed, Some(log_over), warn_over) == Emission::Normal,
{
}

/// Between the two thresholds, `log_over <= elapsed < warn_over`, a call
/// is reported with the normal line.
pub proof fn lemma_between_thresholds_is_normal(elapsed: u128, log_over: u128, warn_over: u128)
    requires
        log_over <= elapsed < warn_over,
    ensures
        spec_select_emission(elapsed, Some(log_over), Some(warn_over)) == Emission::Normal,
{
}

/// Every report is one of the three: nothing is reported only under every
/// threshold that is set, a warning only at or over `warn_over`, and a
/// normal line only without thresholds or at or over `log_over` and under
/// `warn_over`.
pub proof fn lemma_emission_cases(elapsed: u128, log_over: Option<u128>, warn_over: Option<u128>)
    ensures
        spec_select_emission(elapsed, log_over, warn_over) == Emission::Skip ==> {
            &&& (log_over is Some || warn_over is Some)
            &&& (log_over is Some ==> elapsed < log_over->0)
            &&& (warn_over is Some ==> elapsed < warn_over->0)
        },
        spec_select_emission(elapsed, log_over, warn_over) == Emission::Warn ==> (
        warn_over is Some && elapsed >= warn_over->0),
        spec_select_emission(elapsed, log_over, warn_over) == Emission::Normal ==> (
        (log_over is None && warn_over is None) || (log_over is Some && elapsed >= log_over->0 && (
        warn_over is Some ==> elapsed < warn_over->0))),
{
}

/// With the `tracing` backend and the feature on, every line, normal or
/// warning, is a `tracing` event at the level it is given; with the feature
/// off, every line is the missing-feature error.
pub proof fn lemma_tracing_backend_events(level: EventLevel, warn: bool)
    ensures
        spec_backend_sink(OutputBackend::Tracing, level, warn, true) == Sink::Tracing(level),
        spec_backend_sink(OutputBackend::Tracing, level, warn, false) == Sink::TracingUnavailable,
{
}

/// With the `auto` backend and the `tracing` feature on, every line is a
/// `tracing` event at the level it is given.
pub proof fn lemma_auto_backend_follows_feature(level: EventLevel, warn: bool)
    ensures
        spec_backend_sink(OutputBackend::Auto, level, warn, true) == Sink::Tracing(level),
        spec_backend_sink(OutputBackend::Auto, level, warn, false) == spec_backend_sink(
            OutputBackend::Stdout,
            level,
            warn,
            false,
        ),
{
}

/// The standard-output backend writes lines whether or not the `tracing`
/// feature is on: warnings on standard error, others on standard output.
pub proof fn lemma_stdout_backend_lines(level: EventLevel, warn: bool, tracing_enabled: bool)
    ensures
        spec_backend_sink(OutputBackend::Stdout, level, warn, tracing_enabled) == (if warn {
            Sink::StderrLine
        } else {
            Sink::StdoutLine
        }),
{
}

/// Only the standard-output and standard-error sinks write lines, and
/// both lines begin with the `[exec_time] ` prefix of the message.
pub proof fn lemma_line_formats(sink: Sink)
    ensures
        spec_line_format(sink) is Some <==> (sink == Sink::StdoutLine || sink == Sink::StderrLine),
        spec_line_format(Sink::StdoutLine) == Some("[exec_time] "@ + "{}"@),
        spec_line_format(Sink::StderrLine) == Some("[exec_time][warn] "@ + "[exec_time] "@ + "{}"@),
{
    reveal_strlit("[exec_time] {}");
    reveal_strlit("[exec_time][warn] [exec_time] {}");
    reveal_strlit("[exec_time] ");
    reveal_strlit("[exec_time][warn] ");
    reveal_strlit("{}");
    assert("[exec_time] {}"@ =~= "[exec_time] "@ + "{}"@);
    assert("[exec_time][warn] [exec_time] {}"@ =~= "[exec_time][warn] "@ + "[exec_time] "@ + "{}"@);
}

} // verus!
