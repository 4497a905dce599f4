//! What the proxy is started with.

use crate::address::{IpAddress, SocketAddress};
use vstd::prelude::*;

verus! {

/// Where the proxy listens and which upstream SOCKS5 proxy it uses.
#[derive(Clone, Copy, Debug)]
pub struct Config {
    pub socket5_server: SocketAddress,
    pub host: IpAddress,
    pub port: usize,
}

} // verus!
