//! Packet relay between a virtual network interface and peer-to-peer streams:
//! the echo interceptor, the relay state machines and the connection lifecycle.

pub mod checksum;
pub mod clock;
pub mod config;
pub mod device;
pub mod interceptor;
pub mod lifecycle;
pub mod packet;
pub mod relay;
