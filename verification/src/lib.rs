//! Protocol engine for spacecraft subsystem drivers: the framed command
//! packets of an attitude controller, the decoding of a GPS receiver's
//! status codes, the routing of incoming frames, the command handshakes,
//! and the last-known-good telemetry store.
//!
//! Nothing here touches a serial line. The surrounding program reads and
//! writes bytes; this crate decides what those bytes are and what they mean.

pub mod command;
pub mod dispatcher;
pub mod packet;
pub mod reader;
pub mod responses;
pub mod status;
pub mod telemetry;
pub mod wire;
