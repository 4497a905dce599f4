//! An accepted connection on its way to a destination: how the destination
//! is found, and what is known of the connection once it is.

pub use crate::address::{Address, Destination};
use crate::address::{same_endpoint, AddressView, DestinationView, SocketAddress};
use crate::config::Config;
use crate::protocols::socks5::{
    handshake, lemma_early_data_follows_request, method_offer, spec_request, ServerHandshake,
    ServerReply, ServerReplyView, ServerView, Socks5Error, UpstreamHandshake, UpstreamView,
};
use crate::sniff::{as_slice, contents, keep_read, mut_contents, read_part};
use crate::stream::{lemma_relay_integrity, Direction, Event};
use crate::tls::{client_hello_server_name, parse_client_hello};
use bytes::{Bytes, BytesMut};
use std::sync::Arc;
use vstd::prelude::*;

verus! {

/// The port on which a redirected connection is looked at for a TLS server
/// name.
pub const HTTPS_PORT: u16 = 443;

/// An accepted connection whose destination is known.
pub struct Client {
    config: Arc<Config>,
    src: SocketAddress,
    pub dest: Destination,
    from_port: u16,
    pending_data: Option<Bytes>,
    nated: bool,
}

/// A [`Client`] as a plain value.
pub ghost struct ClientView {
    /// What the proxy was started with.
    pub config: Config,
    /// The peer's end of the accepted connection.
    pub src: SocketAddress,
    /// Where the connection wants to go.
    pub dest: DestinationView,
    /// The local port on which the connection was accepted.
    pub from_port: u16,
    /// Bytes that were read from the peer and not yet handed on.
    pub pending_data: Option<Seq<u8>>,
    /// Whether the connection came by redirection, not by a SOCKS5 request.
    pub nated: bool,
}

impl View for Client {
    type V = ClientView;

    closed spec fn view(&self) -> ClientView {
        ClientView {
            config: *self.config,
            src: self.src,
            dest: self.dest@,
            from_port: self.from_port,
            pending_data: match self.pending_data {
                Some(data) => Some(contents(&data)),
                None => None,
            },
            nated: self.nated,
        }
    }
}

/// The destination that the redirection gives: the address that the
/// connection was first sent to, if there is one and it is another end than
/// the one that accepted the connection.
pub open spec fn redirect_target(original: Option<SocketAddress>, local: SocketAddress) -> Option<
    SocketAddress,
> {
    match original {
        Some(target) => if target.normal_form() != local.normal_form() {
            Some(target)
        } else {
            None
        },
        None => None,
    }
}

/// The destination that stands for an end of a connection.
pub open spec fn destination_of(target: SocketAddress) -> DestinationView {
    DestinationView {
        host: match target {
            SocketAddress::V4 { ip, .. } => AddressView::V4(ip@),
            SocketAddress::V6 { ip, .. } => AddressView::V6(ip@),
        },
        port: target.spec_port(),
    }
}

/// The destination after a look at the first bytes of the connection: where
/// they are a ClientHello that names a server, and the name fits a SOCKS5
/// request, that name with the port as before; else the destination as
/// before.
pub open spec fn sniffed_destination(dest: DestinationView, data: Seq<u8>) -> DestinationView {
    match client_hello_server_name(data) {
        Ok(Some(name)) => if AddressView::Domain(name).fits_request() {
            DestinationView { host: AddressView::Domain(name), port: dest.port }
        } else {
            dest
        },
        _ => dest,
    }
}

/// How the destination of an accepted connection is found.
pub enum Negotiation {
    /// The connection was redirected: its destination is the address it was
    /// first sent to.
    Resolved(Client),
    /// The connection was made to the proxy itself: the peer has to ask for
    /// its destination as a SOCKS5 client.
    Socks5(Negotiator),
}

/// The dialogue with a peer that has to name its destination by SOCKS5.
pub struct Negotiator {
    config: Arc<Config>,
    src: SocketAddress,
    from_port: u16,
    handshake: ServerHandshake,
}

/// A [`Negotiator`] as a plain value.
pub ghost struct NegotiatorView {
    pub config: Config,
    pub src: SocketAddress,
    pub from_port: u16,
    pub handshake: ServerView,
}

impl View for Negotiator {
    type V = NegotiatorView;

    closed spec fn view(&self) -> NegotiatorView {
        NegotiatorView {
            config: *self.config,
            src: self.src,
            from_port: self.from_port,
            handshake: self.handshake@,
        }
    }
}

/// What follows a piece of input in the dialogue with the peer.
pub enum Negotiated {
    /// The dialogue goes on: `send` goes to the peer, if it is not empty, and
    /// then `next` says how much to read.
    Pending { next: Negotiator, send: Vec<u8> },
    /// The peer named its destination: `send` goes to the peer, and the
    /// connection is ready for the upstream proxy.
    Resolved { client: Client, send: Vec<u8> },
    /// The peer broke the protocol: the connection is to be closed.
    Rejected(Socks5Error),
}

impl NegotiatorView {
    /// The dialogue is not over: the SOCKS5 server still reads a frame.
    pub open spec fn wf(self) -> bool {
        self.handshake.wf() && (self.handshake.phase is Greeting || self.handshake.phase is Request)
    }

    /// The connection that the dialogue ends in when the peer asks for
    /// `dest`.
    pub open spec fn client(self, dest: DestinationView) -> ClientView {
        ClientView {
            config: self.config,
            src: self.src,
            dest,
            from_port: self.from_port,
            pending_data: None,
            nated: false,
        }
    }

    /// What follows `input`, as the SOCKS5 server's own step decides it.
    pub open spec fn follows(self, input: Seq<u8>, outcome: Negotiated) -> bool {
        let (handshake, reply) = self.handshake.advance(input);
        match reply {
            ServerReplyView::Rejected(e) => outcome == Negotiated::Rejected(e),
            ServerReplyView::Resolved(dest) => {
                &&& outcome matches Negotiated::Resolved { client, send }
                &&& client@ == self.client(dest)
                &&& send@ == reply.frame()
            },
            _ => {
                &&& outcome matches Negotiated::Pending { next, send }
                &&& next@ == NegotiatorView { handshake, ..self }
                &&& next@.wf()
                &&& send@ == reply.frame()
            },
        }
    }
}

impl Negotiator {
    /// How many bytes to read from the peer next. Never zero.
    pub fn wanted(&self) -> (n: usize)
        requires
            self@.wf(),
        ensures
            n == self@.handshake.wanted(),
            n > 0,
    {
        self.handshake.wanted()
    }

    /// Takes what was read from the peer, at most as many bytes as were asked
    /// for, and says what follows.
    pub fn advance(self, input: &[u8]) -> (outcome: Negotiated)
        requires
            self@.wf(),
            input@.len() <= self@.handshake.wanted(),
        ensures
            self@.follows(input@, outcome),
    {
        let Negotiator { config, src, from_port, mut handshake } = self;
        let reply = handshake.advance(input);
        let send = reply.frame();
        match reply {
            ServerReply::Rejected(e) => Negotiated::Rejected(e),
            ServerReply::Resolved(dest) => Negotiated::Resolved {
                client: Client { config, src, dest, from_port, pending_data: None, nated: false },
                send,
            },
            _ => Negotiated::Pending { next: Negotiator { config, src, from_port, handshake }, send },
        }
    }
}

impl Client {
    /// Decides from the addresses of an accepted connection how its
    /// destination is found. `src` is the peer's end and `local` the end
    /// that accepted; `original` is the address that the connection was
    /// first sent to, where the platform can tell.
    pub fn from_socket(
        src: SocketAddress,
        local: SocketAddress,
        original: Option<SocketAddress>,
        config: Arc<Config>,
    ) -> (negotiation: Negotiation)
        ensures
            match redirect_target(original, local) {
                Some(target) => negotiation matches Negotiation::Resolved(client) && client@
                    == (ClientView {
                    config: *config,
                    src,
                    dest: destination_of(target),
                    from_port: local.spec_port(),
                    pending_data: None,
                    nated: true,
                }),
                None => negotiation matches Negotiation::Socks5(negotiator) && negotiator@
                    == (NegotiatorView {
                    config: *config,
                    src,
                    from_port: local.spec_port(),
                    handshake: ServerView::initial(),
                }) && negotiator@.wf(),
            },
    {
        let from_port = local.port();
        match original {
            Some(target) => {
                if !same_endpoint(&target, &local) {
                    let dest = Destination::from(target);
                    return Negotiation::Resolved(
                        Client { config, src, dest, from_port, pending_data: None, nated: true },
                    );
                }
            },
            None => {},
        }
        Negotiation::Socks5(Negotiator { config, src, from_port, handshake: ServerHandshake::new() })
    }

    /// Whether the first bytes of the connection are to be looked at before
    /// the upstream proxy is asked: the connection was redirected, to the
    /// HTTPS port.
    pub fn wants_sniff(&self) -> (wanted: bool)
        ensures
            wanted == (self@.nated && self@.dest.port == HTTPS_PORT),
    {
        self.nated && self.dest.port == HTTPS_PORT
    }

    /// Takes the outcome of the first look at the connection: `buf` is the
    /// buffer that was read into, and `len` the number of bytes that the read
    /// gave, `None` where it gave none in time. What was read is kept for the
    /// upstream proxy; where it is a ClientHello that names a server, that
    /// name becomes the host of the destination.
    pub fn retrieve_dest(self, buf: BytesMut, len: Option<usize>) -> (client: Client)
        ensures
            client@ == match len {
                Some(len) => {
                    let data = read_part(mut_contents(&buf), len as int);
                    ClientView {
                        dest: sniffed_destination(self@.dest, data),
                        pending_data: Some(data),
                        ..self@
                    }
                },
                None => self@,
            },
    {
        let len = match len {
            Some(len) => len,
            None => {
                return self;
            },
        };
        let Client { config, src, dest, from_port, pending_data: _, nated } = self;
        let data = keep_read(buf, len);
        let dest = match parse_client_hello(as_slice(&data)) {
            Ok(hello) => match hello.server_name {
                Some(name) => {
                    let host = Address::Domain(name);
                    if host.fits_request() {
                        Destination { host, port: dest.port }
                    } else {
                        dest
                    }
                },
                None => dest,
            },
            Err(_) => dest,
        };
        Client { config, src, dest, from_port, pending_data: Some(data), nated }
    }

    /// Opens the dialogue with the upstream proxy for this connection. Returns
    /// the state of the dialogue and the greeting, which is to be sent at
    /// once. The bytes that were read from the peer so far leave the
    /// connection and wait in the dialogue, which hands them back for sending
    /// when the upstream proxy has accepted. `None`, and nothing changed,
    /// where the host is a name too long for a request.
    pub fn connect_remote_server(&mut self) -> (opened: Option<(UpstreamHandshake, Vec<u8>)>)
        ensures
            match opened {
                Some((state, offer)) => {
                    &&& old(self)@.dest.host.fits_request()
                    &&& state@ == UpstreamView::start(old(self)@.dest, old(self)@.pending_data)
                    &&& offer@ == method_offer()
                    &&& final(self)@ == (ClientView { pending_data: None, ..old(self)@ })
                },
                None => !old(self)@.dest.host.fits_request() && final(self)@ == old(self)@,
            },
    {
        if !self.dest.host.fits_request() {
            return None;
        }
        let data = self.pending_data.take();
        Some(handshake(&self.dest, data))
    }

    /// What the proxy was started with.
    pub fn config(&self) -> (config: &Config)
        ensures
            *config == self@.config,
    {
        &self.config
    }

    /// The peer's end of the connection.
    pub fn src(&self) -> (src: SocketAddress)
        ensures
            src == self@.src,
    {
        self.src
    }

    /// The local port on which the connection was accepted.
    pub fn from_port(&self) -> (port: u16)
        ensures
            port == self@.from_port,
    {
        self.from_port
    }

    /// Takes the bytes that were read from the peer and not yet handed on.
    pub fn take_pending_data(&mut self) -> (data: Option<Bytes>)
        ensures
            final(self)@ == (ClientView { pending_data: None, ..old(self)@ }),
            match data {
                Some(data) => old(self)@.pending_data == Some(contents(&data)),
                None => old(self)@.pending_data is None,
            },
    {
        self.pending_data.take()
    }
}

/// All that has gone to the upstream proxy for a connection: the greeting,
/// what the two steps of the handshake sent, and what the relay has written
/// of the bytes it read from the peer.
pub open spec fn sent_upstream(
    client: ClientView,
    method_reply: Seq<u8>,
    connect_reply: Seq<u8>,
    relayed: Direction,
) -> Seq<u8> {
    let start = UpstreamView::start(client.dest, client.pending_data);
    let (second, first_action) = start.advance(method_reply);
    let (_, second_action) = second.advance(connect_reply);
    method_offer() + first_action.sent() + second_action.sent() + relayed.delivered
}

/// The bytes that were read from the peer during the first look go to the
/// upstream proxy once, directly behind the request, and before every byte
/// that the relay reads from the peer later: whatever the relay goes
/// through, the upstream proxy receives the greeting, the request, the bytes
/// of the first look, and then what the relay read, in the order it was read.
pub proof fn lemma_pending_data_goes_first(
    client: ClientView,
    method_reply: Seq<u8>,
    connect_reply: Seq<u8>,
    events: Seq<(Event, Seq<u8>)>,
)
    requires
        UpstreamView::start(client.dest, client.pending_data).advance(method_reply).0.advance(
            connect_reply,
        ).0.phase is Established,
    ensures
        ({
            let relayed = Direction::initial().run(events);
            let early = match client.pending_data {
                Some(data) => data,
                None => Seq::empty(),
            };
            &&& sent_upstream(client, method_reply, connect_reply, relayed) == method_offer()
                + spec_request(client.dest) + early + relayed.delivered
            &&& relayed.delivered.is_prefix_of(relayed.received)
        }),
{
    lemma_early_data_follows_request(
        client.dest,
        client.pending_data,
        method_reply,
        connect_reply,
        Seq::empty(),
    );
    lemma_relay_integrity(events);
}

} // verus!
