//! A minimal MQTT client session, modelled and verified.
//!
//! The session splits into a producer-facing handle and an exclusive
//! event loop.  This crate holds the verified core: the transport and
//! session configuration, the bounded request queue that the two sides
//! share, the request driver's state machine, the event pump's policy,
//! and the payload codec.  The asynchronous runtime, the network engine
//! and all I/O live outside, driven by the decision functions here.

pub mod config;
pub mod driver;
pub mod payload;
pub mod pump;
pub mod queue;
pub mod supervisor;
