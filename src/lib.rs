//! A bridge between a serial device and a TCP socket: the configuration it
//! resolves, how it picks a device and reaches the TCP endpoint, and the two
//! forwarding loops together with the rule that decides how the process ends.

pub mod bridge;
pub mod config;
pub mod setup;
