//! Bridge between a synchronous media-pipeline element and an asynchronous
//! message broker.
//!
//! The heart of the crate is the [`channel::Channel`] state machine: it owns
//! the configuration, the lazily attached broker client and the two
//! directional queues, and decides — for every caller operation — which
//! broker action the surrounding runtime must perform next.  The runtime
//! (connection setup, subscribe/publish handles, background tasks) lives
//! outside this crate; every decision it acts on is verified here.

pub mod args;
pub mod channel;
pub mod frame;
pub mod mailbox;
pub mod message;
pub mod order;
pub mod recv;
pub mod send;
