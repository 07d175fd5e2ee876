//! A verified webhook-to-chat relay pipeline.
//!
//! The crate accepts inbound webhook notifications, validates their headers
//! and HMAC signature, hands each validated event through a bounded FIFO
//! relay queue, and models the delivery loop that forwards every event to a
//! fixed chat channel.

pub mod config;
pub mod ingest;
pub mod notifier;
pub mod queue;
pub mod render;
pub mod signature;
pub mod status;
pub mod text;
