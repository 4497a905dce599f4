use bytes::BytesMut;
use socket_proxy::address::{
    normalize_socket_addr, same_endpoint, Address, Destination, IpAddress, SocketAddress,
};
use socket_proxy::client::{Client, Negotiated, Negotiation, Negotiator};
use socket_proxy::config::Config;
use socket_proxy::names::decode_name;
use socket_proxy::protocols::socks5::{do_handshake, Socks5Error, UpstreamAction};
use socket_proxy::sniff::{keep_read, peek_buffer, PEEK_LEN, PEEK_TIMEOUT_MS};
use std::sync::Arc;

fn config() -> Arc<Config> {
    Arc::new(Config {
        socket5_server: SocketAddress::V4 { ip: [127, 0, 0, 1], port: 1080 },
        host: IpAddress::V4([0, 0, 0, 0]),
        port: 12345,
    })
}

fn peer() -> SocketAddress {
    SocketAddress::V4 { ip: [192, 168, 1, 7], port: 50123 }
}

fn listener() -> SocketAddress {
    SocketAddress::V4 { ip: [192, 168, 1, 1], port: 12345 }
}

fn redirected_to(target: SocketAddress) -> Client {
    match Client::from_socket(peer(), listener(), Some(target), config()) {
        Negotiation::Resolved(client) => client,
        Negotiation::Socks5(_) => panic!("not redirected"),
    }
}

fn negotiator(original: Option<SocketAddress>) -> Negotiator {
    match Client::from_socket(peer(), listener(), original, config()) {
        Negotiation::Socks5(negotiator) => negotiator,
        Negotiation::Resolved(_) => panic!("redirected"),
    }
}

fn is_domain(dest: &Destination, name: &str, port: u16) -> bool {
    matches!(&dest.host, Address::Domain(host) if host == name) && dest.port == port
}

fn is_v4(dest: &Destination, ip: [u8; 4], port: u16) -> bool {
    matches!(&dest.host, Address::Ip(IpAddress::V4(host)) if *host == ip) && dest.port == port
}

fn hello_for(name: &[u8]) -> Vec<u8> {
    let mut server_name = Vec::new();
    server_name.extend_from_slice(&((name.len() + 3) as u16).to_be_bytes());
    server_name.push(0);
    server_name.extend_from_slice(&(name.len() as u16).to_be_bytes());
    server_name.extend_from_slice(name);
    let mut extensions = vec![0u8, 0];
    extensions.extend_from_slice(&(server_name.len() as u16).to_be_bytes());
    extensions.extend_from_slice(&server_name);
    let mut body = vec![3u8, 3];
    body.extend_from_slice(&[7; 32]);
    body.push(0);
    body.extend_from_slice(&[0, 2, 0x13, 0x01]);
    body.extend_from_slice(&[1, 0]);
    body.extend_from_slice(&(extensions.len() as u16).to_be_bytes());
    body.extend_from_slice(&extensions);
    let mut handshake = vec![1u8];
    handshake.extend_from_slice(&(body.len() as u32).to_be_bytes()[1..]);
    handshake.extend_from_slice(&body);
    let mut record = vec![22u8, 3, 1];
    record.extend_from_slice(&(handshake.len() as u16).to_be_bytes());
    record.extend_from_slice(&handshake);
    record
}

fn peeked(data: &[u8]) -> BytesMut {
    let mut buf = peek_buffer();
    buf[..data.len()].copy_from_slice(data);
    buf
}

#[test]
fn an_ipv4_end_is_compared_as_its_mapped_ipv6_end() {
    let v4 = SocketAddress::V4 { ip: [93, 184, 216, 34], port: 443 };
    let mapped = SocketAddress::V6 {
        ip: [0, 0, 0, 0, 0, 0, 0, 0, 0, 0, 0xff, 0xff, 93, 184, 216, 34],
        port: 443,
        flowinfo: 0,
        scope_id: 0,
    };
    match normalize_socket_addr(&v4) {
        SocketAddress::V6 { ip, port, flowinfo, scope_id } => {
            assert_eq!(ip, [0, 0, 0, 0, 0, 0, 0, 0, 0, 0, 0xff, 0xff, 93, 184, 216, 34]);
            assert_eq!((port, flowinfo, scope_id), (443, 0, 0));
        }
        _ => panic!("not an IPv6 end"),
    }
    assert!(same_endpoint(&v4, &mapped));
    assert!(same_endpoint(&mapped, &v4));
    assert!(same_endpoint(&v4, &v4));
}

#[test]
fn ends_that_differ_in_any_part_are_not_the_same() {
    let end = SocketAddress::V6 { ip: [1; 16], port: 443, flowinfo: 0, scope_id: 0 };
    assert!(same_endpoint(&end, &end));
    let mut other_ip = [1; 16];
    other_ip[15] = 2;
    assert!(!same_endpoint(
        &end,
        &SocketAddress::V6 { ip: other_ip, port: 443, flowinfo: 0, scope_id: 0 }
    ));
    assert!(!same_endpoint(
        &end,
        &SocketAddress::V6 { ip: [1; 16], port: 444, flowinfo: 0, scope_id: 0 }
    ));
    assert!(!same_endpoint(
        &end,
        &SocketAddress::V6 { ip: [1; 16], port: 443, flowinfo: 1, scope_id: 0 }
    ));
    assert!(!same_endpoint(
        &end,
        &SocketAddress::V6 { ip: [1; 16], port: 443, flowinfo: 0, scope_id: 3 }
    ));
    assert!(!same_endpoint(
        &SocketAddress::V4 { ip: [1, 2, 3, 4], port: 80 },
        &SocketAddress::V4 { ip: [1, 2, 3, 4], port: 81 }
    ));
    assert!(!same_endpoint(
        &SocketAddress::V4 { ip: [1, 2, 3, 4], port: 80 },
        &SocketAddress::V4 { ip: [1, 2, 3, 5], port: 80 }
    ));
}

#[test]
fn an_ipv6_end_stays_as_it_is() {
    let end = SocketAddress::V6 { ip: [9; 16], port: 1, flowinfo: 5, scope_id: 6 };
    match normalize_socket_addr(&end) {
        SocketAddress::V6 { ip, port, flowinfo, scope_id } => {
            assert_eq!((ip, port, flowinfo, scope_id), ([9; 16], 1, 5, 6));
        }
        _ => panic!("not an IPv6 end"),
    }
}

#[test]
fn parts_of_an_end() {
    let end = SocketAddress::V4 { ip: [1, 2, 3, 4], port: 80 };
    assert!(matches!(end.ip(), IpAddress::V4([1, 2, 3, 4])));
    assert_eq!(end.port(), 80);
    let end = SocketAddress::V6 { ip: [9; 16], port: 81, flowinfo: 5, scope_id: 6 };
    assert!(matches!(end.ip(), IpAddress::V6(ip) if ip == [9; 16]));
    assert_eq!(end.port(), 81);
}

#[test]
fn destinations_from_other_values() {
    assert!(matches!(Address::from([1u8, 2, 3, 4]), Address::Ip(IpAddress::V4([1, 2, 3, 4]))));
    assert!(matches!(Address::from([3u8; 16]), Address::Ip(IpAddress::V6(ip)) if ip == [3; 16]));
    assert!(matches!(Address::from(String::from("a.example")), Address::Domain(n) if n == "a.example"));
    let dest = Destination::from(SocketAddress::V4 { ip: [1, 2, 3, 4], port: 80 });
    assert!(is_v4(&dest, [1, 2, 3, 4], 80));
    let dest = Destination::from(("a.example", 8080u16));
    assert!(is_domain(&dest, "a.example", 8080));
    let dest = Destination::from((Address::from([1u8, 2, 3, 4]), 81u16));
    assert!(is_v4(&dest, [1, 2, 3, 4], 81));
    let copy = dest.clone();
    assert!(is_v4(&copy, [1, 2, 3, 4], 81));
    let name = Address::Domain(String::from("b.example"));
    assert!(matches!(name.clone(), Address::Domain(n) if n == "b.example"));
}

#[test]
fn a_redirected_connection_is_resolved_at_once() {
    let client = redirected_to(SocketAddress::V4 { ip: [93, 184, 216, 34], port: 443 });
    assert!(is_v4(&client.dest, [93, 184, 216, 34], 443));
    assert_eq!(client.from_port(), 12345);
    assert!(matches!(client.src(), SocketAddress::V4 { ip: [192, 168, 1, 7], port: 50123 }));
    assert_eq!(client.config().port, 12345);
    assert!(client.wants_sniff());
}

#[test]
fn a_redirected_connection_to_another_port_is_not_looked_at() {
    let client = redirected_to(SocketAddress::V4 { ip: [93, 184, 216, 34], port: 80 });
    assert!(is_v4(&client.dest, [93, 184, 216, 34], 80));
    assert!(!client.wants_sniff());
}

#[test]
fn a_connection_to_the_proxy_itself_has_to_speak_socks5() {
    let n = negotiator(Some(listener()));
    assert_eq!(n.wanted(), 1);
    let n = negotiator(None);
    assert_eq!(n.wanted(), 1);
    let mapped = SocketAddress::V6 {
        ip: [0, 0, 0, 0, 0, 0, 0, 0, 0, 0, 0xff, 0xff, 192, 168, 1, 1],
        port: 12345,
        flowinfo: 0,
        scope_id: 0,
    };
    let n = negotiator(Some(mapped));
    assert_eq!(n.wanted(), 1);
}

#[test]
fn a_socks5_client_names_its_destination() {
    let mut stream = vec![5u8, 1, 0, 5, 1, 0, 3, 10];
    stream.extend_from_slice(b"test.local");
    stream.extend_from_slice(&8080u16.to_be_bytes());
    let mut negotiator = negotiator(None);
    let mut at = 0;
    let mut sent = Vec::new();
    let client = loop {
        let wanted = negotiator.wanted();
        assert!(wanted > 0);
        let outcome = negotiator.advance(&stream[at..at + wanted]);
        at += wanted;
        match outcome {
            Negotiated::Pending { next, send } => {
                sent.extend_from_slice(&send);
                negotiator = next;
            }
            Negotiated::Resolved { client, send } => {
                sent.extend_from_slice(&send);
                break client;
            }
            Negotiated::Rejected(e) => panic!("rejected: {:?}", e),
        }
    };
    assert_eq!(at, stream.len());
    assert!(is_domain(&client.dest, "test.local", 8080));
    assert_eq!(sent, vec![5, 0, 5, 0, 0, 1, 0, 0, 0, 0, 0, 0]);
    assert_eq!(client.from_port(), 12345);
    assert!(!client.wants_sniff());
}

#[test]
fn a_socks5_client_that_asks_for_the_https_port_is_not_looked_at() {
    let stream = [5u8, 1, 0, 5, 1, 0, 1, 93, 184, 216, 34, 1, 187];
    let mut negotiator = negotiator(None);
    let mut at = 0;
    let client = loop {
        let wanted = negotiator.wanted();
        match negotiator.advance(&stream[at..at + wanted]) {
            Negotiated::Pending { next, .. } => negotiator = next,
            Negotiated::Resolved { client, .. } => break client,
            Negotiated::Rejected(e) => panic!("rejected: {:?}", e),
        }
        at += wanted;
    };
    assert!(is_v4(&client.dest, [93, 184, 216, 34], 443));
    assert!(!client.wants_sniff());
}

#[test]
fn a_peer_that_speaks_no_socks5_is_rejected() {
    let outcome = negotiator(None).advance(&[0x16]);
    assert!(matches!(outcome, Negotiated::Rejected(Socks5Error::NotSocks5)));
}

#[test]
fn a_peer_that_offers_no_method_is_rejected() {
    let next = match negotiator(None).advance(&[5]) {
        Negotiated::Pending { next, send } => {
            assert!(send.is_empty());
            next
        }
        _ => panic!("not pending"),
    };
    assert_eq!(next.wanted(), 1);
    assert!(matches!(next.advance(&[0]), Negotiated::Rejected(Socks5Error::NoAuthNotOffered)));
}

#[test]
fn the_server_name_of_a_redirected_connection_becomes_its_host() {
    let client = redirected_to(SocketAddress::V4 { ip: [93, 184, 216, 34], port: 443 });
    let hello = hello_for(b"example.com");
    let mut client = client.retrieve_dest(peeked(&hello), Some(hello.len()));
    assert!(is_domain(&client.dest, "example.com", 443));
    let pending = client.take_pending_data().unwrap();
    assert_eq!(&pending[..], &hello[..]);
    assert!(client.take_pending_data().is_none());
}

#[test]
fn bytes_that_are_no_client_hello_are_kept_and_the_address_stays() {
    let client = redirected_to(SocketAddress::V4 { ip: [93, 184, 216, 34], port: 443 });
    let data = b"GET / HTTP/1.1\r\n\r\n";
    let mut client = client.retrieve_dest(peeked(data), Some(data.len()));
    assert!(is_v4(&client.dest, [93, 184, 216, 34], 443));
    assert_eq!(&client.take_pending_data().unwrap()[..], &data[..]);
}

#[test]
fn a_client_hello_that_was_cut_is_kept_and_the_address_stays() {
    let client = redirected_to(SocketAddress::V4 { ip: [93, 184, 216, 34], port: 443 });
    let hello = hello_for(b"example.com");
    let cut = hello.len() - 1;
    let mut client = client.retrieve_dest(peeked(&hello), Some(cut));
    assert!(is_v4(&client.dest, [93, 184, 216, 34], 443));
    assert_eq!(&client.take_pending_data().unwrap()[..], &hello[..cut]);
}

#[test]
fn a_look_that_gave_nothing_in_time_changes_nothing() {
    let client = redirected_to(SocketAddress::V4 { ip: [93, 184, 216, 34], port: 443 });
    let mut client = client.retrieve_dest(peek_buffer(), None);
    assert!(is_v4(&client.dest, [93, 184, 216, 34], 443));
    assert!(client.take_pending_data().is_none());
}

#[test]
fn a_look_that_read_no_byte_keeps_no_byte() {
    let client = redirected_to(SocketAddress::V4 { ip: [93, 184, 216, 34], port: 443 });
    let mut client = client.retrieve_dest(peek_buffer(), Some(0));
    assert!(is_v4(&client.dest, [93, 184, 216, 34], 443));
    assert_eq!(client.take_pending_data().unwrap().len(), 0);
}

#[test]
fn a_server_name_too_long_for_a_request_is_not_taken() {
    let client = redirected_to(SocketAddress::V6 { ip: [1; 16], port: 443, flowinfo: 0, scope_id: 0 });
    let name = vec![b'a'; 256];
    let hello = hello_for(&name);
    let mut client = client.retrieve_dest(peeked(&hello), Some(hello.len()));
    assert!(matches!(&client.dest.host, Address::Ip(IpAddress::V6(ip)) if *ip == [1; 16]));
    assert_eq!(client.dest.port, 443);
    assert_eq!(client.take_pending_data().unwrap().len(), hello.len());
}

#[test]
fn a_server_name_of_255_bytes_is_taken() {
    let client = redirected_to(SocketAddress::V4 { ip: [93, 184, 216, 34], port: 443 });
    let name = vec![b'a'; 255];
    let hello = hello_for(&name);
    let client = client.retrieve_dest(peeked(&hello), Some(hello.len()));
    assert!(is_domain(&client.dest, &"a".repeat(255), 443));
}

#[test]
fn the_buffer_for_the_first_look() {
    let buf = peek_buffer();
    assert_eq!(buf.len(), PEEK_LEN);
    assert_eq!(PEEK_LEN, 2048);
    assert_eq!(PEEK_TIMEOUT_MS, 500);
    assert!(buf.iter().all(|b| *b == 0));
}

#[test]
fn only_what_was_read_is_kept() {
    let kept = keep_read(peeked(b"abcdef"), 4);
    assert_eq!(&kept[..], b"abcd");
    let kept = keep_read(peeked(b"abcdef"), 0);
    assert_eq!(kept.len(), 0);
    let kept = keep_read(peek_buffer(), PEEK_LEN);
    assert_eq!(kept.len(), PEEK_LEN);
    let kept = keep_read(peek_buffer(), PEEK_LEN + 1);
    assert_eq!(kept.len(), PEEK_LEN);
}

#[test]
fn names_are_utf8() {
    assert_eq!(decode_name(b"example.com"), Some(String::from("example.com")));
    assert_eq!(decode_name("bücher".as_bytes()), Some(String::from("bücher")));
    assert_eq!(decode_name(b""), Some(String::new()));
    assert_eq!(decode_name(&[0xff]), None);
    assert_eq!(decode_name(&[0xc3]), None);
    assert_eq!(decode_name(&[0xed, 0xa0, 0x80]), None);
}

#[test]
fn the_bytes_of_the_first_look_wait_in_the_upstream_dialogue() {
    let client = redirected_to(SocketAddress::V4 { ip: [93, 184, 216, 34], port: 443 });
    let hello = hello_for(b"example.com");
    let mut client = client.retrieve_dest(peeked(&hello), Some(hello.len()));
    let (mut state, offer) = client.connect_remote_server().unwrap();
    assert_eq!(offer, vec![5, 1, 0]);
    assert!(client.take_pending_data().is_none());
    match do_handshake(&mut state, &[5, 0]) {
        UpstreamAction::Request(request) => {
            let mut expected = vec![5u8, 1, 0, 3, 11];
            expected.extend_from_slice(b"example.com");
            expected.extend_from_slice(&[1, 187]);
            assert_eq!(request, expected);
        }
        _ => panic!("no request"),
    }
    match do_handshake(&mut state, &[5, 0, 0, 1, 0, 0, 0, 0, 0, 0]) {
        UpstreamAction::Established(Some(data)) => assert_eq!(&data[..], &hello[..]),
        _ => panic!("not established"),
    }
}

#[test]
fn a_host_too_long_for_a_request_opens_no_upstream_dialogue() {
    let mut client = redirected_to(SocketAddress::V4 { ip: [93, 184, 216, 34], port: 443 });
    client.dest = Destination { host: Address::Domain("a".repeat(256)), port: 443 };
    assert!(client.connect_remote_server().is_none());
    client.dest = Destination { host: Address::Domain("a".repeat(255)), port: 443 };
    assert!(client.connect_remote_server().is_some());
}

#[test]
fn the_addresses_are_found_under_the_connection_too() {
    let host = socket_proxy::client::Address::Domain(String::from("a.example"));
    let dest = socket_proxy::client::Destination { host, port: 1 };
    assert!(is_domain(&dest, "a.example", 1));
}
