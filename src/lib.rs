//! Client-side protocol stack for electric-scooter controllers reached over a
//! short-range radio link: the command frame codec, the device tracker, the
//! channel selection, the connection resilience state machine, the
//! authentication handshake and the request/response session.
pub mod commands;
pub mod codec;
pub mod tracker;
pub mod channels;
pub mod session;
pub mod telemetry;
pub mod connection;
pub mod handshake;
