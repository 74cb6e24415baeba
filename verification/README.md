# agentropic_runtime

Runtime, execution engine, scheduling and supervision for agents, written in
Verus.

- `src/` is the verified library: the runtime's agent bookkeeping
  (`runtime`), the decisions of an agent task's life cycle (`lifecycle`),
  exponential back-off (`supervisor`), schedulers and their task queue
  (`scheduler`), metrics collection, registry and export rows (`metrics`),
  isolation settings and resource monitoring (`isolation`), tracing spans
  (`tracing_agent`), configuration, errors, executors and agent identifiers.
  Agent identifiers are 128-bit UUID values; the `uuid` crate draws fresh
  ones and writes their text, since agents are identified by UUIDs.
  Durations are nanosecond counts; `f64` quantities are held as their IEEE 754
  bit patterns.
- `app/` runs it on tokio: agent tasks driven by the library's life-cycle
  steps, the shared runtime behind a lock, JSON export, serde copies of the
  configuration and metric types, `Duration` views of the nanosecond counts,
  and the settings that clamp `f64` values.
- `tests/` exercises the library on concrete values.
