# nanai-intel-gna-monitor

A verified library for monitoring Intel GNA usage, and a demo program around it.

- `src/decimal.rs` — decimal text of numbers and half-to-even rounding.
- `src/text.rs` — string equality, prefixes, and reading unsigned numbers.
- `src/memory.rs` — memory summaries, per-process entries, and the
  human-readable rendering of byte counts (`format_bytes`), with its
  accuracy and range laws.
- `src/gna_api.rs` — the usage metrics the native GNA library reports.
- `src/gna.rs` — the GNA demo's decisions: its command line, where the native
  library is loaded from, stress-run limits, the order of the device calls
  and what a failed call leads to, and the model's memory layout and values.
- `src/ui/types.rs` — the monitoring UI's state and messages.
- `app/` — the demo program: native library calls, device I/O and printing.
