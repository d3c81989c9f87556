//! The attribute's arguments, and what they make of one function: whether
//! it is timed at all, the label of its timing line and the statement that
//! reports it.
use vstd::prelude::*;
use vstd::string::*;
use crate::options::{OutputBackend, EventLevel, TimeUnit};
use crate::threshold::DurationThreshold;
use crate::emit::{EmitStatement, Emitter, emit_statement, spec_backend_sink};
use crate::text::str_eq;

verus! {

/// The arguments of the attribute, each absent where it was not given.
#[derive(Clone, Debug)]
pub struct MacroArgs {
    /// `always` (the default), `debug` or `never`.
    pub print: Option<String>,
    pub prefix: Option<String>,
    pub suffix: Option<String>,
    pub name: Option<String>,
    pub backend: Option<OutputBackend>,
    pub level: Option<EventLevel>,
    pub unit: Option<TimeUnit>,
    pub log_over: Option<DurationThreshold>,
    pub warn_over: Option<DurationThreshold>,
}

/// The text of an optional string.
pub open spec fn opt_view(o: Option<String>) -> Option<Seq<char>> {
    match o {
        Some(s) => Some(s@),
        None => None,
    }
}

/// Whether a function is timed: `print` defaults to `always`, `debug`
/// times only where debug assertions are on, and any other value (such as
/// `never`) leaves the function as it is.
pub open spec fn spec_print_enabled(print: Option<Seq<char>>, debug_assertions: bool) -> bool {
    let p = match print {
        Some(p) => p,
        None => "always"@,
    };
    p == "always"@ || (p == "debug"@ && debug_assertions)
}

/// The label of a function named `ident`: `name` where it is given,
/// otherwise `<prefix>::<ident>::<suffix>`, each of `prefix` and `suffix`
/// with its `::` only where it is given.
pub open spec fn spec_label(
    ident: Seq<char>,
    name: Option<Seq<char>>,
    prefix: Option<Seq<char>>,
    suffix: Option<Seq<char>>,
) -> Seq<char> {
    match name {
        Some(n) => n,
        None => {
            let head = match prefix {
                Some(p) => p + "::"@,
                None => Seq::<char>::empty(),
            };
            let tail = match suffix {
                Some(s) => "::"@ + s,
                None => Seq::<char>::empty(),
            };
            head + ident + tail
        },
    }
}

impl MacroArgs {
    /// The label of the function named `ident` under these arguments.
    pub open spec fn spec_label_of(self, ident: Seq<char>) -> Seq<char> {
        spec_label(ident, opt_view(self.name), opt_view(self.prefix), opt_view(self.suffix))
    }

    pub open spec fn backend_or_default(self) -> OutputBackend {
        match self.backend {
            Some(b) => b,
            None => OutputBackend::Auto,
        }
    }

    pub open spec fn level_or_default(self) -> EventLevel {
        match self.level {
            Some(l) => l,
            None => EventLevel::Info,
        }
    }

    pub open spec fn unit_or_default(self) -> TimeUnit {
        match self.unit {
            Some(u) => u,
            None => TimeUnit::Ms,
        }
    }

    /// Whether the function is timed, where debug assertions are on or off
    /// as `debug_assertions` says.
    pub fn print_enabled(&self, debug_assertions: bool) -> (r: bool)
        ensures
            r == spec_print_enabled(opt_view(self.print), debug_assertions),
    {
        let print_arg: &str = match &self.print {
            Some(p) => p.as_str(),
            None => "always",
        };
        str_eq(print_arg, "always") || (str_eq(print_arg, "debug") && debug_assertions)
    }
}

impl Default for MacroArgs {
    fn default() -> (r: MacroArgs)
        ensures
            r.print is None,
            r.prefix is None,
            r.suffix is None,
            r.name is None,
            r.backend is None,
            r.level is None,
            r.unit is None,
            r.log_over is None,
            r.warn_over is None,
    {
        MacroArgs {
            print: None,
            prefix: None,
            suffix: None,
            name: None,
            backend: None,
            level: None,
            unit: None,
            log_over: None,
            warn_over: None,
        }
    }
}

/// The label of the timing line of the function named `ident`.
pub fn build_label(ident: &str, args: &MacroArgs) -> (r: String)
    ensures
        r@ == args.spec_label_of(ident@),
{
    if let Some(name) = &args.name {
        return name.clone();
    }
    let mut label = String::new();
    if let Some(prefix) = &args.prefix {
        label.append(prefix.as_str());
        label.append("::");
    }
    label.append(ident);
    if let Some(suffix) = &args.suffix {
        label.append("::");
        label.append(suffix.as_str());
    }
    proof {
        let head = match opt_view(args.prefix) {
            Some(p) => p + "::"@,
            None => Seq::<char>::empty(),
        };
        let tail = match opt_view(args.suffix) {
            Some(s) => "::"@ + s,
            None => Seq::<char>::empty(),
        };
        assert(label@ =~= head + ident@ + tail);
    }
    label
}

/// What the attribute makes of the function named `ident`: nothing where
/// `print` leaves it untimed, otherwise the statement that reports it,
/// with its label, the backend (default `auto`), the level (default
/// `info`), the unit (default `ms`) and the thresholds of the arguments.
pub fn instrumentation_plan(
    args: &MacroArgs,
    ident: &str,
    debug_assertions: bool,
    tracing_enabled: bool,
) -> (r: Option<EmitStatement>)
    ensures
        r is Some <==> spec_print_enabled(opt_view(args.print), debug_assertions),
        r matches Some(s) ==> {
            &&& s.label@ == args.spec_label_of(ident@)
            &&& s.normal == (Emitter {
                sink: spec_backend_sink(
                    args.backend_or_default(),
                    args.level_or_default(),
                    false,
                    tracing_enabled,
                ),
                unit: args.unit_or_default(),
            })
            &&& s.warn == (Emitter {
                sink: spec_backend_sink(
                    args.backend_or_default(),
                    EventLevel::Warn,
                    true,
                    tracing_enabled,
                ),
                unit: args.unit_or_default(),
            })
            &&& s.log_over == match args.log_over {
                Some(d) => Some(d.0),
                None => None::<u128>,
            }
            &&& s.warn_over == match args.warn_over {
                Some(d) => Some(d.0),
                None => None::<u128>,
            }
        },
{
    if !args.print_enabled(debug_assertions) {
        return None;
    }
    let label = build_label(ident, args);
    let backend = match args.backend {
        Some(b) => b,
        None => OutputBackend::default(),
    };
    let level = match args.level {
        Some(l) => l,
        None => EventLevel::default(),
    };
    let unit = match args.unit {
        Some(u) => u,
        None => TimeUnit::default(),
    };
    Some(
        emit_statement(
            label.as_str(),
            backend,
            level,
            unit,
            args.log_over,
            args.warn_over,
            tracing_enabled,
        ),
    )
}

/// `print = "never"` leaves a function untimed, whatever else is given.
pub proof fn lemma_never_is_silent(debug_assertions: bool)
    ensures
        !spec_print_enabled(Some("never"@), debug_assertions),
{
    reveal_strlit("never");
    reveal_strlit("always");
    reveal_strlit("debug");
    assert("never"@[0] != "always"@[0]);
    assert("never"@[0] != "debug"@[0]);
}

/// Without `print`, a function is timed.
pub proof fn lemma_print_defaults_to_always(debug_assertions: bool)
    ensures
        spec_print_enabled(None, debug_assertions),
{
}

/// `print = "debug"` times a function exactly where debug assertions are on.
pub proof fn lemma_debug_follows_assertions(debug_assertions: bool)
    ensures
        spec_print_enabled(Some("debug"@), debug_assertions) == debug_assertions,
{
    reveal_strlit("always");
    reveal_strlit("debug");
    assert("always"@[0] != "debug"@[0]);
}

/// `name` replaces the label: `prefix` and `suffix` are then ignored.
pub proof fn lemma_name_overrides(ident: Seq<char>, name: Seq<char>, prefix: Option<Seq<char>>, suffix: Option<Seq<char>>)
    ensures
        spec_label(ident, Some(name), prefix, suffix) == name,
{
}

/// Without `name`, the label is `<prefix>::<function>::<suffix>`.
pub proof fn lemma_label_with_prefix_and_suffix(ident: Seq<char>, prefix: Seq<char>, suffix: Seq<char>)
    ensures
        spec_label(ident, None, Some(prefix), Some(suffix)) == prefix + "::"@ + ident + "::"@ + suffix,
{
    assert(prefix + "::"@ + ident + ("::"@ + suffix) =~= prefix + "::"@ + ident + "::"@ + suffix);
}

/// Without `name`, `prefix` or `suffix`, the label is the function's name.
pub proof fn lemma_label_defaults_to_ident(ident: Seq<char>)
    ensures
        spec_label(ident, None, None, None) == ident,
{
    assert(Seq::<char>::empty() + ident + Seq::<char>::empty() =~= ident);
}

/// `print = "always"` times a function whether or not debug assertions are
/// on, exactly as leaving `print` out does.
pub proof fn lemma_always_times(debug_assertions: bool)
    ensures
        spec_print_enabled(Some("always"@), debug_assertions),
        spec_print_enabled(Some("always"@), debug_assertions) == spec_print_enabled(
            None,
            debug_assertions,
        ),
{
}

/// A `print` value other than `always` and `debug` leaves a function
/// untimed; only those two values ever time one.
pub proof fn lemma_other_print_values_are_silent(p: Seq<char>, debug_assertions: bool)
    ensures
        (p != "always"@ && p != "debug"@) ==> !spec_print_enabled(Some(p), debug_assertions),
        spec_print_enabled(Some(p), debug_assertions) ==> (p == "always"@ || p == "debug"@),
{
}

/// Without `backend`, `level` or `unit`, a function is reported with the
/// `auto` backend, at the `info` level, in milliseconds.
pub proof fn lemma_plan_defaults(args: MacroArgs)
    ensures
        args.backend is None ==> args.backend_or_default() == OutputBackend::Auto,
        args.level is None ==> args.level_or_default() == EventLevel::Info,
        args.unit is None ==> args.unit_or_default() == TimeUnit::Ms,
        args.backend matches Some(b) ==> args.backend_or_default() == b,
        args.level matches Some(l) ==> args.level_or_default() == l,
        args.unit matches Some(u) ==> args.unit_or_default() == u,
{
}

/// With `prefix` alone, the label is `<prefix>::<function>`.
pub proof fn lemma_label_with_prefix(ident: Seq<char>, prefix: Seq<char>)
    ensures
        spec_label(ident, None, Some(prefix), None) == prefix + "::"@ + ident,
{
    assert(prefix + "::"@ + ident + Seq::<char>::empty() =~= prefix + "::"@ + ident);
}

/// With `suffix` alone, the label is `<function>::<suffix>`.
pub proof fn lemma_label_with_suffix(ident: Seq<char>, suffix: Seq<char>)
    ensures
        spec_label(ident, None, None, Some(suffix)) == ident + "::"@ + suffix,
{
    assert(Seq::<char>::empty() + ident + ("::"@ + suffix) =~= ident + "::"@ + suffix);
}

} // verus!
