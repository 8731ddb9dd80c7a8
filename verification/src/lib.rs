//! Discovery-driven reverse proxy core for a fleet of devices that announce
//! themselves over a publish/subscribe message bus.
//!
//! The library holds the verified logic: the topic parser, the per-device
//! state and its update rule, the shared device-state store, the discovery
//! message handler, the virtual-host router, and credential formatting.
//! Transport plumbing (the bus session, the HTTP listener) lives outside the
//! library and only feeds it plain values.

pub mod config;
pub mod devices;
pub mod discovery;
pub mod ip;
pub mod router;
pub mod store;
pub mod strings;
pub mod topic;
