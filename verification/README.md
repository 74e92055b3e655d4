# async_serde

`async fn` serde: a run asks an instructor for a type, awaits the step that
the deserializer's answer produces, and inspects it.

- `src/` is the verified core (Verus): the requests (`request.rs`), the
  reported values (`visit.rs`), the inspection buffers (`inspect.rs`), the
  executor's state machine and its handles (`machine.rs`), the executor's
  entry point (`executor.rs`), and the protocol's laws (`laws.rs`).
- `app/` is the asynchronous front end: the `Run` trait, the futures that the
  handles return, and the bridge that drives a serde `Deserializer`.
- `tests/` exercises the core on concrete runs.
