# parrot

A thread-based actor runtime whose decisions are written in Verus and proved
against their contracts.

- `src/thread/mailbox/` — bounded FIFO mailboxes of message ids over `flume`,
  `tokio` and `ringbuf`, with the four backpressure strategies stated once in
  `MailboxModel` and laws about them.
- `src/thread/scheduler/` — the scheduling queue (`crossbeam-queue`), the
  shared pool, the multi-threaded scheduler, the dedicated-thread pool and
  scheduler, and their workers' loop steps.
- `src/thread/actor.rs`, `context.rs`, `processor/` — an actor's lifecycle,
  its context, and the processor that runs it.
- `src/thread/system.rs` — the actor registry and the system's decisions when
  actors are spawned, stopped, watched, terminate, and when it shuts down.
- `src/system.rs` — named systems with a default one.
- `src/logging.rs` — logging presets and filter directives.
- `app/` — the asynchronous driver, the logging subscriber and error types
  implementing `std::error::Error`.

Actors, references and mailboxes are named by `u64` handles that the
program maps to running objects; the library tells it what to send, start,
stop or wait for.
