//! Presence-and-identity monitoring for contactless smart cards.
//!
//! The library holds the decisions of the monitoring engine: how reader and
//! card observations change the published state and which notifications
//! follow, how a connection is negotiated and retried, how the identifier is
//! read from a card, when monitoring starts and stops, and how many operations
//! may run at once. Device access and scheduling stay with the caller, which
//! performs what the library asks for and hands back what it observed.

pub mod card;
pub mod connect;
pub mod device;
pub mod events;
pub mod extraction;
pub mod gate;
pub mod identifier;
pub mod iteration;
pub mod laws;
pub mod readers;
pub mod schedule;
pub mod system;
