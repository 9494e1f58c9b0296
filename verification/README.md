# auxin

Version control helpers for creative projects (Logic Pro, Blender,
SketchUp) kept in Oxen repositories: commit metadata, ignore templates,
locks, snapshots, bounces, chunked uploads, network resilience, and a
terminal console.

The library under `src/` is written in Verus: each public function states
in its contract what it returns or changes, and Verus proves the code
against it. Work that reads or writes files, runs processes or draws on a
terminal is left to the caller; the library decides and computes from the
values it is handed.

- `src/` — the verified library, one module per area (`console` and
  `console_view` for the terminal console's state machine and screens,
  `network_resilience` for retries and the circuit breaker, and so on).
- `tests/` — tests of the library on concrete values.
- `app/` — the `auxin` command line: argument handling, the terminal loop,
  file and process work, and the few computations done in floating point.
