//! Core of a small TCP load-testing harness: a fixed-width frame codec for
//! `u64` values, a workload generator, the client's and server's per-connection
//! state machines with their sentinel rules, and the server's counting job.
//!
//! All I/O (sockets, threads, timers) lives outside this crate; the functions
//! here work on plain values and are verified.

pub mod codec;
pub mod dispatch;
pub mod proto;
pub mod server;
pub mod timing;
pub mod workload;

pub use codec::FrameError;
pub use codec::UintCodec;
pub use dispatch::ClientAction;
pub use dispatch::ClientEvent;
pub use dispatch::ClientState;
pub use dispatch::ExchangeError;
pub use proto::UintProto;
pub use server::ServerAction;
pub use server::ServerEvent;
pub use server::ServerState;
pub use workload::Range;
