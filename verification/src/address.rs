//! Addresses as plain values: what a socket is bound to and where a
//! connection wants to go.

use vstd::prelude::*;
use vstd::string::StringSliceAdditionalSpecFns;
use vstd::utf8::encode_utf8;

verus! {

/// An IP address, as its bytes in network order.
#[derive(Clone, Copy, Debug)]
pub enum IpAddress {
    V4([u8; 4]),
    V6([u8; 16]),
}

/// The host of a destination: an IP address, or a name that the upstream
/// proxy resolves.
#[derive(Debug)]
pub enum Address {
    Ip(IpAddress),
    Domain(String),
}

/// An [`Address`] as a plain value: the bytes of an IP address, or the
/// characters of a name.
pub ghost enum AddressView {
    V4(Seq<u8>),
    V6(Seq<u8>),
    Domain(Seq<char>),
}

impl View for Address {
    type V = AddressView;

    open spec fn view(&self) -> AddressView {
        match self {
            Address::Ip(IpAddress::V4(ip)) => AddressView::V4(ip@),
            Address::Ip(IpAddress::V6(ip)) => AddressView::V6(ip@),
            Address::Domain(name) => AddressView::Domain(name@),
        }
    }
}

/// The longest domain name, in bytes, that a SOCKS5 request can carry.
pub const MAX_DOMAIN_LEN: usize = 255;

impl AddressView {
    /// A domain name must fit the one length byte of a SOCKS5 request.
    pub open spec fn fits_request(self) -> bool {
        match self {
            AddressView::Domain(name) => encode_utf8(name).len() <= MAX_DOMAIN_LEN,
            _ => true,
        }
    }
}

impl Clone for Address {
    fn clone(&self) -> (copy: Address)
        ensures
            copy@ == self@,
    {
        match self {
            Address::Ip(ip) => Address::Ip(*ip),
            Address::Domain(name) => Address::Domain(name.clone()),
        }
    }
}

impl Address {
    /// Whether a SOCKS5 request can carry this address.
    pub fn fits_request(&self) -> (fits: bool)
        ensures
            fits == self@.fits_request(),
    {
        match self {
            Address::Ip(_) => true,
            Address::Domain(name) => name.as_str().as_bytes().len() <= MAX_DOMAIN_LEN,
        }
    }
}

/// The resolved target of a connection.
#[derive(Debug)]
pub struct Destination {
    pub host: Address,
    pub port: u16,
}

/// A [`Destination`] as a plain value.
pub ghost struct DestinationView {
    pub host: AddressView,
    pub port: u16,
}

impl View for Destination {
    type V = DestinationView;

    open spec fn view(&self) -> DestinationView {
        DestinationView { host: self.host@, port: self.port }
    }
}

impl Clone for Destination {
    fn clone(&self) -> (copy: Destination)
        ensures
            copy@ == self@,
    {
        Destination { host: self.host.clone(), port: self.port }
    }
}

/// The address of one end of a TCP connection. An IPv6 end carries the flow
/// information and the scope as well, and two ends are the same only if those
/// agree too.
#[derive(Clone, Copy, Debug)]
#[allow(inconsistent_fields)]
pub enum SocketAddress {
    V4 { ip: [u8; 4], port: u16 },
    V6 { ip: [u8; 16], port: u16, flowinfo: u32, scope_id: u32 },
}

impl SocketAddress {
    /// The IP address of this end.
    pub open spec fn spec_ip(self) -> IpAddress {
        match self {
            SocketAddress::V4 { ip, .. } => IpAddress::V4(ip),
            SocketAddress::V6 { ip, .. } => IpAddress::V6(ip),
        }
    }

    /// The port of this end.
    pub open spec fn spec_port(self) -> u16 {
        match self {
            SocketAddress::V4 { port, .. } => port,
            SocketAddress::V6 { port, .. } => port,
        }
    }

    /// The IP address of this end.
    pub fn ip(&self) -> (ip: IpAddress)
        ensures
            ip == self.spec_ip(),
    {
        match self {
            SocketAddress::V4 { ip, .. } => IpAddress::V4(*ip),
            SocketAddress::V6 { ip, .. } => IpAddress::V6(*ip),
        }
    }

    /// The port of this end.
    pub fn port(&self) -> (port: u16)
        ensures
            port == self.spec_port(),
    {
        match self {
            SocketAddress::V4 { port, .. } => *port,
            SocketAddress::V6 { port, .. } => *port,
        }
    }
}

impl From<[u8; 4]> for Address {
    fn from(value: [u8; 4]) -> (address: Address) {
        Address::Ip(IpAddress::V4(value))
    }
}

impl vstd::std_specs::convert::FromSpecImpl<[u8; 4]> for Address {
    open spec fn obeys_from_spec() -> bool {
        true
    }

    open spec fn from_spec(value: [u8; 4]) -> Address {
        Address::Ip(IpAddress::V4(value))
    }
}

impl From<[u8; 16]> for Address {
    fn from(value: [u8; 16]) -> (address: Address) {
        Address::Ip(IpAddress::V6(value))
    }
}

impl vstd::std_specs::convert::FromSpecImpl<[u8; 16]> for Address {
    open spec fn obeys_from_spec() -> bool {
        true
    }

    open spec fn from_spec(value: [u8; 16]) -> Address {
        Address::Ip(IpAddress::V6(value))
    }
}

impl From<String> for Address {
    fn from(value: String) -> (address: Address) {
        Address::Domain(value)
    }
}

impl vstd::std_specs::convert::FromSpecImpl<String> for Address {
    open spec fn obeys_from_spec() -> bool {
        true
    }

    open spec fn from_spec(value: String) -> Address {
        Address::Domain(value)
    }
}

impl From<SocketAddress> for Destination {
    fn from(addr: SocketAddress) -> (dest: Destination) {
        Destination { host: Address::Ip(addr.ip()), port: addr.port() }
    }
}

impl vstd::std_specs::convert::FromSpecImpl<SocketAddress> for Destination {
    open spec fn obeys_from_spec() -> bool {
        true
    }

    open spec fn from_spec(addr: SocketAddress) -> Destination {
        Destination { host: Address::Ip(addr.spec_ip()), port: addr.spec_port() }
    }
}

impl From<(Address, u16)> for Destination {
    fn from(addr_port: (Address, u16)) -> (dest: Destination) {
        Destination { host: addr_port.0, port: addr_port.1 }
    }
}

impl vstd::std_specs::convert::FromSpecImpl<(Address, u16)> for Destination {
    open spec fn obeys_from_spec() -> bool {
        true
    }

    open spec fn from_spec(addr_port: (Address, u16)) -> Destination {
        Destination { host: addr_port.0, port: addr_port.1 }
    }
}

impl<'a> From<(&'a str, u16)> for Destination {
    fn from(addr: (&'a str, u16)) -> (dest: Destination)
        ensures
            dest@ == (DestinationView { host: AddressView::Domain(addr.0@), port: addr.1 }),
    {
        Destination { host: Address::Domain(addr.0.to_owned()), port: addr.1 }
    }
}

impl<'a> vstd::std_specs::convert::FromSpecImpl<(&'a str, u16)> for Destination {
    /// The new destination owns a copy of the name, which is the same text
    /// and not the same value: `from` states what it returns by itself.
    open spec fn obeys_from_spec() -> bool {
        false
    }

    open spec fn from_spec(addr: (&'a str, u16)) -> Destination {
        arbitrary()
    }
}

/// An end of a connection in the form in which two ends are compared.
pub ghost struct Endpoint {
    pub ip: Seq<u8>,
    pub port: u16,
    pub flowinfo: u32,
    pub scope_id: u32,
}

/// The IPv4 address `ip` written as an IPv6 address: ten zero bytes, two bytes
/// `0xff`, then the four bytes of `ip`.
pub open spec fn ipv6_mapped(ip: Seq<u8>) -> Seq<u8> {
    Seq::new(10, |i: int| 0u8) + seq![0xffu8, 0xffu8] + ip
}

impl SocketAddress {
    /// The form in which this end is compared with another: an IPv4 end
    /// stands for the IPv6 end with the mapped address, the same port, and no
    /// flow information or scope.
    pub open spec fn normal_form(self) -> Endpoint {
        match self {
            SocketAddress::V4 { ip, port } => Endpoint {
                ip: ipv6_mapped(ip@),
                port,
                flowinfo: 0,
                scope_id: 0,
            },
            SocketAddress::V6 { ip, port, flowinfo, scope_id } => Endpoint {
                ip: ip@,
                port,
                flowinfo,
                scope_id,
            },
        }
    }
}

/// Whether two arrays of sixteen bytes hold the same bytes.
fn same_bytes(a: &[u8; 16], b: &[u8; 16]) -> (same: bool)
    ensures
        same == (a@ == b@),
{
    let mut i: usize = 0;
    while i < 16
        invariant
            i <= 16,
            forall|j: int| 0 <= j < i ==> a@[j] == b@[j],
        decreases 16 - i,
    {
        if a[i] != b[i] {
            return false;
        }
        i += 1;
    }
    assert(a@ =~= b@);
    true
}

/// Brings an end into the form in which it is compared: an IPv6 end stays as
/// it is, an IPv4 end becomes the IPv6 end that stands for it.
pub fn normalize_socket_addr(socket: &SocketAddress) -> (normal: SocketAddress)
    ensures
        normal is V6,
        normal.normal_form() == socket.normal_form(),
{
    match socket {
        SocketAddress::V4 { ip, port } => {
            let mapped: [u8; 16] = [0, 0, 0, 0, 0, 0, 0, 0, 0, 0, 0xff, 0xff, ip[0], ip[1], ip[2], ip[3]];
            assert(mapped@ =~= ipv6_mapped(ip@));
            SocketAddress::V6 { ip: mapped, port: *port, flowinfo: 0, scope_id: 0 }
        },
        SocketAddress::V6 { .. } => *socket,
    }
}

/// Whether two ends are the same once both are in normal form.
pub fn same_endpoint(a: &SocketAddress, b: &SocketAddress) -> (same: bool)
    ensures
        same == (a.normal_form() == b.normal_form()),
{
    let a = normalize_socket_addr(a);
    let b = normalize_socket_addr(b);
    match (a, b) {
        (
            SocketAddress::V6 { ip: ip_a, port: port_a, flowinfo: flow_a, scope_id: scope_a },
            SocketAddress::V6 { ip: ip_b, port: port_b, flowinfo: flow_b, scope_id: scope_b },
        ) => same_bytes(&ip_a, &ip_b) && port_a == port_b && flow_a == flow_b && scope_a == scope_b,
        _ => false,
    }
}

} // verus!
