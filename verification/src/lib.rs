//! A small authoritative/forwarding DNS resolver core: a wildcard-capable
//! domain table, resolver state over a pluggable storage backend, the
//! per-packet decision logic of the query handler, and the server's
//! lifecycle.  Wire encoding and decoding are consumed as a black-box codec;
//! sockets and durable storage are driven by the embedding program.

pub mod codec;
pub mod domain_map;
pub mod handler;
pub mod ip;
pub mod laws;
pub mod name;
pub mod resolver;
pub mod server;

pub use domain_map::DomainMap;
pub use handler::{DnsQuestion, LocalDecision, PacketOutcome};
pub use ip::Ipv4;
pub use resolver::{DomainStorage, ResolverState, UpstreamAddr};
pub use server::{LoopEvent, ServerLifecycle, ServerPhase};
