//! A real-time gateway core: a broadcast hub that tracks live sessions,
//! the per-connection session state machine, and the bearer-token
//! authorization layer that gates the gateway's operations.

pub mod hub;
pub mod trusted;
pub mod laws;
pub mod auth;
pub mod gateway;
pub mod session;
