# rtk runner

The decision logic behind running a wrapped command and showing a filtered
version of its output.

- `src/options.rs` — `RunOptions` and its builders.
- `src/labels.rs` — the labels a run is tracked under.
- `src/guard.rs` — token estimate, the guard that never shows more than the
  command produced, and the composition of filtered output with a tee hint.
- `src/text.rs` — Unicode whitespace and blank text.
- `src/runner.rs` — `Run`, a step machine: it takes what happened (the command
  ended, the filter returned, the tee wrote a hint, output was written) and says
  what to do next (spawn, filter, tee, write, finish). Its step relation `next`
  is the specification; the laws below it are proved over `next`.
- `src/rules_dev.rs` — the project's own command rules.
- `app/lib.rs` — the loop that performs the actions: process spawning, teeing
  and tracking through a `Host`, printing to the terminal.

## Token estimate and guard

The modules that hold the guard and the token estimate of the wider project
are not part of this crate's sources. The estimate used here — UTF-8 bytes
divided by four, rounded up — and the guard's tie rule — the filtered text is
kept when its estimate is equal to (`<=`) that of the raw output — are this
crate's own choice, made from the documented intent "never emit more tokens
than the command".
