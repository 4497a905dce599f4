//! The wire protocols that the proxy speaks besides plain relaying.

pub mod socks5;
