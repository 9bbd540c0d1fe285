//! Client-side session layer for the Rithmic protocol: length-prefixed
//! framing, the template-id wire scan, the per-plant session registry, the
//! adaptive heartbeat schedule, the inbound loop's decisions and the
//! per-plant fan-out to subscribers.
//!
//! Everything here is synchronous and free of I/O. A transport layer performs
//! the network actions that these functions decide on and reports their
//! outcome back as plain values.

pub mod api_client;
pub mod broadcaster;
pub mod credentials;
pub mod errors;
pub mod framing;
pub mod handshake;
pub mod heartbeat;
pub mod hub;
pub mod inbound;
pub mod lifecycle;
pub mod map;
pub mod messages;
pub mod plants;
pub mod queue;
pub mod registry;
pub mod servers;
pub mod systems;
pub mod teardown;
pub mod text;
pub mod wire;
