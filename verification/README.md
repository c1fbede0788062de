# statekit

An immutable state-transition validator for workflows whose states are data
rather than code, verified with Verus.

A `Machine` is built with a `MachineBuilder`, which validates each state name
and transition as it is added: names may not be empty, whitespace-only, or
begin or end with Unicode whitespace, and a transition may not lead from a
state to itself. A built machine holds at least one transition, answers
whether a transition is allowed, and lists its sources, states, targets and
transitions. A `MachineInstance` walks a machine along allowed transitions.

Layout:

- `src/model.rs` — the model: a machine is a finite set of `(source, target)`
  name pairs; sources, targets, states and successors are functions of it.
- `src/state_name.rs` — the state-name rules (Unicode `White_Space`) and exact
  name comparison.
- `src/transition.rs`, `src/transitions.rs` — a validated transition and a
  duplicate-free collection of them.
- `src/builder.rs`, `src/inner.rs`, `src/machine.rs`, `src/instance.rs` — the
  public API; every contract is stated over the model.
- `src/laws.rs` — properties relating several operations, proved over the
  model.
- `src/error.rs` — the error type, its model and its messages.
- `app/` — the error type with `Display`/`std::error::Error` (via
  `thiserror`) and the panicking `allow`.
