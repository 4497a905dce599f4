//! The protocol core of a transparent TCP proxy: how the destination of an
//! accepted connection is found, how it is requested from an upstream SOCKS5
//! proxy, and how bytes are relayed between the two sockets afterwards.
//!
//! Nothing here touches a socket. Every state machine takes what was read and
//! says what has to be written or read next.

pub mod address;
pub mod client;
pub mod config;
pub mod names;
pub mod protocols;
pub mod sniff;
pub mod stream;
pub mod tls;
