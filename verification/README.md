# careful-resume

Careful Resume for QUIC congestion control: a new connection starts from the
round-trip time and the congestion window that an earlier connection saved,
validates the jump, and retreats if it was wrong. Around it stand the decisions
of a small HTTP/0.9 client over QUIC.

- `src/` is the library, written in Verus. `resume` is the state machine of a
  connection, `resume_laws` what holds of every connection, `saved` the file of
  saved parameters. `target`, `roots`, `transport` and `session` decide where
  the client connects, whom it trusts, how it is configured and what it does
  next. `span` and `text` are helpers.
- `tests/` runs the library on concrete values.
- `app/` is the client itself and the reading of files and clocks. It is built
  with the workspace's own `quinn` and `quinn-proto`, which is why `Cargo.toml`
  does not name them.
