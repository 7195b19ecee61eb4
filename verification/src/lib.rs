//! Request/response dispatch on top of a publish/subscribe transport.
//!
//! The crate holds the decisions of a responder process and none of its
//! I/O: how a request becomes a correlated reply, which handler a topic
//! resolves to, and how the dispatch loop reacts to deliveries, lost
//! connections and a stop request. A driver performs the actions that
//! the loop asks for and reports back what happened.

pub mod dispatcher;
pub mod error;
pub mod handler;
pub mod logic;
pub mod message;
pub mod registry;
pub mod traces;
