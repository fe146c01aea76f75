//! Reliable-session core for a real-time client/server networking library:
//! wraparound-safe packet ordering, wire timestamps, round-trip-time
//! estimation, the connection liveness state machine, a typed event registry
//! and the client-local entity table.

pub mod clock;
pub mod connection;
pub mod connection_config;
pub mod entity;
pub mod entity_stream;
pub mod events;
pub mod rtt;
pub mod sequence;
pub mod timestamp;
pub mod wire;
