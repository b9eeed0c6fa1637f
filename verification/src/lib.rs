//! A single-process cluster node driven by newline-delimited JSON messages.
//!
//! The node answers a fixed set of request payloads: an init handshake, an
//! echo workload, a unique-id generator, and a single-node broadcast/read
//! workload with a topology-announcement step. The message model, the id
//! rendering, the state machine, and the run-level laws live here; reading
//! and writing the actual byte streams is left to the surrounding program.

pub mod ident;
pub mod laws;
pub mod msg;
pub mod node;

