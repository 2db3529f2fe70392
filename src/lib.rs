//! Drives items from an asynchronous source into an asynchronous consumer,
//! one at a time and under the consumer's backpressure, and hands work to
//! tokio's default executor.
//!
//! The forwarding logic is a state machine: the caller performs each
//! [`forward::Action`] on its real source and consumer, and reports what
//! happened as a [`forward::Event`].

pub mod forward;
pub mod spawn;

pub use forward::{Action, Event, Forward, ForwardState, SinkPoll, SourcePoll, Stage};
pub use spawn::{SpawnErrorKind, TokioDefaultSpawn};
