# io-gmail

I/O-free coroutines for the Gmail REST API (v1), built on io-http's
HTTP/1.1 coroutine: callers own the socket, the TLS stack and the
runtime, and pump the coroutines with the bytes they read.

- `src/` is the library, verified with Verus: request building (URL,
  query, headers, JSON body), reply interpretation (success body, Gmail
  error envelope, redirects), the raw-message codec and the mailbox-watch
  state machine (`v1::history_poll`), each with its contract.
- `app/` is the blocking client around it: the stream, the JSON decoding
  of success bodies into the library's resources, and the loop that
  drives the watch.
- `tests/` exercises the library with the real outside crates linked.
