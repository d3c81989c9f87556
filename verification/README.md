# exec_time

The logic of the `#[exec_time]` attribute, which times a function call and
reports it, as a verified library.

- `src/text.rs`: white-space trimming, suffix stripping, unsigned decimal
  reading and string equality on `str`, each against a spec over `Seq<char>`.
- `src/options.rs`: the `backend`, `level` and `unit` values and how they are read.
- `src/threshold.rs`: `log_over` / `warn_over` thresholds such as `500us`, `5ms`, `0.5s`.
- `src/emit.rs`: where a timing line goes, and which report (none, normal,
  warning) a call of a given duration gets under the thresholds.
- `src/args.rs`: the attribute's arguments, whether a function is timed, its
  label, and the reporting statement planned for it.
- `app/lib.rs`: the attribute's expansion: darling reads the arguments into the
  library's `MacroArgs`, the library plans, `quote` writes the tokens. Seconds
  thresholds are read there, as floating-point numbers.
