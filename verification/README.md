# Orosu

A server runs predefined scripts for authenticated clients, over WebSocket
connections that can be encrypted end to end.

- `src/` is the library, verified with Verus: keys and their text forms, the
  encryption handshake, authentication, the launch and upload protocol of both
  ends, the wire format, and the checks on configuration and uploads.
  `src/outside.rs` holds the calls into other crates; their contracts are the
  only thing that is taken on trust.
- `app/` holds the three programs, told apart by the name that they are started
  under: `orosu-server`, `orosu-client` and `orosu-keygen`. They own sockets,
  files, clocks and processes, and do what the library decides.
- `tests/` runs the library on concrete values.
