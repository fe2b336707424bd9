# glonax

The verified core of the glonax runtime for excavator control, written in
Verus.

- `src/` is the library: the frame protocol (encoding and decoding of frame
  headers, the session start, request, shutdown and null packets, and the
  round trips between them), serial line settings and speed codes, encoder
  scaling, the services and pipeline the runtime plans from its
  configuration, how the servers route and apply client messages, the
  network authority's tick decisions, and the command line word and address
  readers. Verus proves the contract of each of its functions, except the
  few small wrappers (marked `#[verifier::external_body]`) that call into
  `bytes`, `termios` and the standard library: their contracts state what
  those crates document and are trusted, not proved.
- `tests/` runs the library on concrete values.
- `app/` is the part that talks to the outside world: TCP and file clients
  built on the protocol, serial devices through termios, and configuration
  files read with serde.
