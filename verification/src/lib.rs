//! Core of a server that drives an interactive version-control bisection
//! session over a framed connection: the wire-message codec, the deferred
//! command descriptions, the connection registry, and the dispatch state
//! machine that interleaves external-process runs with client judgments.

pub mod codec;
pub mod command;
pub mod dispatch;
pub mod laws;
pub mod messages;
pub mod registry;
