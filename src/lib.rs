//! Discovery and session supervision for live-broadcast chat scraping.
//!
//! The crate holds the decision logic: the popularity-listing pagination rule,
//! candidate enrichment, the channel registry that keeps one session per
//! channel, and the chat session state machine. Network work is done by the
//! caller, which feeds results back as plain values.
pub mod discovery;
pub mod endpoints;
pub mod frame;
pub mod models;
pub mod registry;
pub mod session;
