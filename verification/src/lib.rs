//! Telemetry client state for the grok shell, with every outbound analytics
//! path removed: what is left is the mode gate, the client record that local
//! logs stamp into events, the subscription-tier normaliser and an inert
//! crash-reporting hook.

pub mod config;
pub mod http;
pub mod tier;
pub mod metadata;
pub mod client;
pub mod sentry;
