//! Verified core of a multi-protocol HTTP and gRPC mock server used as a
//! benchmarking target.
//!
//! The library holds what the server decides and computes: the HTTP
//! handlers' results, the WebSocket echo policy, the gRPC echo service,
//! the shutdown watcher's state machine and the command-line settings.
//! Sockets, runtimes and frameworks stay with the binary that drives it.

pub mod http;
pub mod grpc;
pub mod shutdown;
pub mod cli;
