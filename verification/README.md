# itj_tiny_deps

Small building blocks for daemons and desktop helpers, verified with Verus.

- `src/` is the library, checked by Verus: every function in it verifies,
  and most state in `requires`/`ensures` what they do. Those whose work
  lives in state shared between handles (the mock clock, the notification
  mock, the tally plugin, the shared queue) state only what holds of every
  outcome. It covers error traces, time arithmetic and a mock clock,
  the `curl` output parser and the leaky-bucket throttle, mocks for HTTP and
  notifications, plugin runners, message framing, the byte formats of the
  demo daemons (autolock and hello-world), and the arithmetic of random
  sampling. Laws that span several calls are public `proof fn`s (`lemma_*`).
- `tests/` runs the library on concrete values.
- `app/` is plain Rust around the library: real clocks, processes, sockets,
  threads, files, the command lines of the two daemons, and the serde
  copies of the sway event types.

Durations and instants are `u64` nanoseconds throughout the library.
