# acto_rs

Typed pipeline elements (source, sink, filter, Y-split, Y-merge, scatter,
gather) whose channel ends are connected and disconnected by a verified state
machine, and which exchange messages over `lossyq` queues.

- `src/` – the library, verified with Verus. `elem/connectable.rs` holds the
  connection state machine and its laws; `elem/wrap/` the tasks that run user
  elements; `lossy.rs` the trusted boundary to `lossyq`; `sample/` example
  elements; `bitset.rs`, `bench.rs`, `scheduler/event.rs` small helpers.
- `tests/` – tests run against the compiled library.
- `app/` – the micro-benchmark program (timing, threads, printing).
