//! A line-oriented TCP echo service, modelled and verified.
//!
//! The concurrency-free core of the service lives here: the accept-loop
//! state machine, the per-connection read/echo decisions, the bounded
//! lossy message queue, the client-side response check, and the plain
//! string and arithmetic helpers. An unverified shell drives sockets and
//! tasks and consults these functions for every decision.

pub mod client;
pub mod handler;
pub mod processing;
pub mod protocol;
pub mod queue;
pub mod server;
pub mod strings;
pub mod util;
