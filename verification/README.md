# strobmock

A multi-protocol HTTP and gRPC mock server for benchmarking, with its
decisions and computations verified by Verus.

- `src/` — the verified library:
  - `http.rs`: `/echo`, `/bytes/{size}` (zero-filled, at most 100 MiB),
    `/health`, the `/sse` ping event and the `/ws` echo policy;
  - `grpc.rs`: `mock.EchoService` (unary, server-streaming and
    bidirectional echo) over plain request and response values;
  - `shutdown.rs`: the interrupt relay and the state machine of the
    shutdown watcher;
  - `cli.rs`: the settings, their defaults, the log level, the bind
    addresses and where a log file goes (its directory and name are
    stated for the paths that every platform splits alike: a plain name,
    `dir/name`, `/name`, `dir/..` and `/`).
- `app/` — the binary: clap, tracing, axum, tonic and tokio, driving the
  library.
- `tests/` — tests of the library.
