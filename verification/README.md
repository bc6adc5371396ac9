# ash_flare

Fault-tolerant supervision trees in the manner of Erlang/OTP, with the
supervisor's decisions verified in Verus.

- `src/` is the verified library: restart policies, strategies and the
  sliding-window restart intensity (`restart.rs`); the supervisor
  specification tree (`supervisor/spec.rs`); the supervisor state machine that
  decides what happens when children are started, terminated or exit
  (`supervisor/state.rs`) and the properties that span its operations
  (`supervisor/laws.rs`); the lifecycle of a worker (`worker.rs`); mailboxes
  (`mailbox.rs`); how an update changes the shared worker context
  (`context.rs`); the messages, replies and length-prefixed framing of
  distributed supervision (`distributed.rs`).
- `app/` runs it all on tokio: the async `Worker` trait, supervisor tasks,
  the shared `WorkerContext`, the TCP/Unix server and client, and serde
  copies of the message types.
- `tests/` exercises the library on concrete values.
