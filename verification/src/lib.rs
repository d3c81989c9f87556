//! Planning for an attribute that times a function call: reading the
//! attribute's option values and duration thresholds, building the label,
//! choosing where the timing line goes, and deciding at run time whether a
//! measured call is reported.
pub mod text;
pub mod options;
pub mod threshold;
pub mod emit;
pub mod args;

pub use args::{MacroArgs, build_label, instrumentation_plan};
pub use emit::{EmitStatement, Emission, Emitter, Sink, emit_statement, backend_sink, select_emission};
pub use options::{EventLevel, OutputBackend, TimeUnit, UnknownValue};
pub use threshold::{DurationThreshold, ParsedThreshold, parse_duration_threshold};
