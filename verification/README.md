# tapsrs

Transport Services (RFC 9622) in Rust, with the library's behaviour stated in contracts
and proved with Verus.

- `src/` is the verified library: endpoints and transport, selection, message and
  security properties; messages and length-prefix framing; the connection, listener
  and preconnection state machines; connection groups and properties; the comparison of
  interface lists that path monitoring reports; and the values that cross the C
  interface. Laws that span several operations are public proof functions
  (`lemma_*`) beside the functions they speak of.
- `app/` is the runtime around it: TCP sockets and Tokio tasks, event channels, the
  connection-group registry, platform interface listing, and the `extern "C"`
  functions.
- `tests/` exercises the library on concrete values.
