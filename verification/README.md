# herdr

The verified decisions behind clients that attach to a session server:

- `src/client_accept.rs`: accepting and rejecting pending connections, and
  numbering the clients.
- `src/client_accept_waker.rs`: the waker that tells the server loop of a pending
  connection, with a listener that can be replaced at any time.
- `src/waker_setup.rs`: setting up the waker's channel and worker.
- `src/waker_protocol.rs`: the waker's two sides as one system with freely
  interleaved steps. No rearm is lost, a pending connection is notified, and every
  shutdown ends.
- `src/session_switch.rs`: preparing to move a client to another session.
- `src/session_commit.rs`: committing a prepared move, or refusing a stale one.

The library makes no system call. `app/` holds the sockets, threads and tasks: it
performs the actions that the library asks for and reports what came of them.
