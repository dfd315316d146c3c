//! Verified core of a command-queue consumer for a telephony switch.
//!
//! Pending command records live in a shared record store. A worker picks
//! them up over a push (live) feed or a pull (poll) fallback, claims each
//! record, routes its action to an external executor, and writes back a
//! terminal result. The routing rules, write-back statements, feed
//! filters and loop state machines are verified here; the network, the
//! process spawning and the async plumbing stay outside, in the
//! unverified shell that drives this library.

pub mod clock;
pub mod dispatch;
pub mod ident;
pub mod json;
pub mod num;
pub mod pipeline;
pub mod record;
pub mod registry;
pub mod store;
pub mod text;
pub mod topic;
pub mod url;
pub mod worker;
