//! A console consumer for a message broker cluster: the run configuration,
//! the client settings derived from it, and the decisions of the poll loop.

pub mod client;
pub mod config;
pub mod consume;
pub mod transcript;

pub use client::LogLevel;
pub use config::{ConfigError, RunConfig, DEFAULT_BROKERS, DEFAULT_GROUP_ID};
pub use consume::{next_action, AbortReason, LoopAction, LoopEvent};
pub use transcript::{replay, Transcript};
