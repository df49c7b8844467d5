# ssh_assistant

Connection, heartbeat, retry and file-transfer logic of an SSH client, with
contracts checked by Verus.

- `src/` is the verified library: error classification, reconnection
  backoff, heartbeat escalation, session-pool health, network quality,
  connection planning and host-key decisions, the transfer state machine,
  retry policy and circuit breaker, checkpoints, the transfer connection
  pool, prompts, metrics and logs.  Public proof functions named `law_*`
  state properties that hold across operations.
- `app/` is the unverified shell around it: sockets and SSH sessions,
  SFTP and file I/O, the SQLite store, threads and the worker loop.  It
  checks each library function's preconditions before calling it.
- `tests/` exercises the library on concrete values.

All timing is measured in milliseconds on the wall clock read by
`src/clock.rs`; durations measured across a backward clock step count as 0.
