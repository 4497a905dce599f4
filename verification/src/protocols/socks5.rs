//! The SOCKS5 wire format, as far as the proxy speaks it: no authentication,
//! CONNECT only. The same frames serve two roles: towards local clients the
//! proxy is the server, towards the upstream proxy it is the client.

use crate::address::{Address, AddressView, Destination, DestinationView, IpAddress};
use crate::names::{decode_name, lemma_decode_encoded_name, spec_decode_name};
use crate::sniff::contents;
use bytes::Bytes;
use vstd::prelude::*;
use vstd::slice::slice_subrange;
use vstd::string::StringSliceAdditionalSpecFns;
use vstd::utf8::encode_utf8;

verus! {

/// The protocol version that starts every frame.
pub const VERSION: u8 = 5;

/// The method "no authentication".
pub const NO_AUTH: u8 = 0;

/// The command CONNECT.
pub const CMD_CONNECT: u8 = 1;

/// Address type of an IPv4 address.
pub const ATYP_V4: u8 = 1;

/// Address type of a domain name.
pub const ATYP_DOMAIN: u8 = 3;

/// Address type of an IPv6 address.
pub const ATYP_V6: u8 = 4;

/// The reply code "succeeded".
pub const REPLY_SUCCEEDED: u8 = 0;

/// How a peer broke the protocol.
#[derive(Clone, Copy, Debug, PartialEq, Eq, Structural)]
pub enum Socks5Error {
    /// The first byte of a client is not the SOCKS5 version.
    NotSocks5,
    /// The client does not offer "no authentication".
    NoAuthNotOffered,
    /// The request is not a SOCKS5 CONNECT.
    ConnectRequired,
    /// The request's address type is none of IPv4, domain and IPv6.
    UnknownAddressType,
    /// The domain name of the request is not UTF-8.
    InvalidDomain,
    /// The upstream proxy did not select "no authentication".
    MethodRefused,
    /// The upstream proxy did not report success.
    RequestRefused,
}

impl Socks5Error {
    /// The text under which this error is reported.
    pub open spec fn spec_message(self) -> Seq<char> {
        match self {
            Socks5Error::NotSocks5 => "Neither a NATed or SOCKSv5 connection"@,
            Socks5Error::NoAuthNotOffered => "Socksv5, Only no auth supported"@,
            Socks5Error::ConnectRequired => "Socksv5, CONNECT is required"@,
            Socks5Error::UnknownAddressType => "Socksv5, unknown adress type"@,
            Socks5Error::InvalidDomain => "Socksv5, invalid domain name"@,
            Socks5Error::MethodRefused => ""@,
            Socks5Error::RequestRefused => "unexpected reply from server"@,
        }
    }

    /// The text under which this error is reported.
    pub fn message(&self) -> (m: &'static str)
        ensures
            m@ == self.spec_message(),
    {
        match self {
            Socks5Error::NotSocks5 => "Neither a NATed or SOCKSv5 connection",
            Socks5Error::NoAuthNotOffered => "Socksv5, Only no auth supported",
            Socks5Error::ConnectRequired => "Socksv5, CONNECT is required",
            Socks5Error::UnknownAddressType => "Socksv5, unknown adress type",
            Socks5Error::InvalidDomain => "Socksv5, invalid domain name",
            Socks5Error::MethodRefused => "",
            Socks5Error::RequestRefused => "unexpected reply from server",
        }
    }
}

/// The two port bytes, most significant first.
pub open spec fn port_bytes(port: u16) -> Seq<u8> {
    seq![(port / 256) as u8, (port % 256) as u8]
}

/// The port that two bytes spell, most significant first.
pub open spec fn port_of(high: u8, low: u8) -> u16 {
    (high * 256 + low) as u16
}

/// The address part of a request: the address type, then the address. A
/// domain name stands behind one byte that holds its length.
pub open spec fn address_bytes(host: AddressView) -> Seq<u8> {
    match host {
        AddressView::V4(ip) => seq![ATYP_V4] + ip,
        AddressView::V6(ip) => seq![ATYP_V6] + ip,
        AddressView::Domain(name) => seq![ATYP_DOMAIN, encode_utf8(name).len() as u8] + encode_utf8(
            name,
        ),
    }
}

/// The CONNECT request for `dest`: version, command, a reserved zero byte,
/// the address, the port.
pub open spec fn spec_request(dest: DestinationView) -> Seq<u8> {
    seq![VERSION, CMD_CONNECT, 0u8] + address_bytes(dest.host) + port_bytes(dest.port)
}

/// Appends the CONNECT request for `dest` to `buf`.
pub fn build_request(buf: &mut Vec<u8>, dest: &Destination)
    requires
        dest@.host.fits_request(),
    ensures
        final(buf)@ == old(buf)@ + spec_request(dest@),
{
    buf.push(VERSION);
    buf.push(CMD_CONNECT);
    buf.push(0);
    match &dest.host {
        Address::Ip(IpAddress::V4(ip)) => {
            buf.push(ATYP_V4);
            buf.extend_from_slice(ip.as_slice());
        },
        Address::Ip(IpAddress::V6(ip)) => {
            buf.push(ATYP_V6);
            buf.extend_from_slice(ip.as_slice());
        },
        Address::Domain(name) => {
            let bytes = name.as_str().as_bytes();
            buf.push(ATYP_DOMAIN);
            buf.push(bytes.len() as u8);
            buf.extend_from_slice(bytes);
        },
    }
    buf.push((dest.port / 256) as u8);
    buf.push((dest.port % 256) as u8);
}

/// Where the parse of a frame stands after the bytes received so far.
#[derive(Debug)]
pub enum Step<T> {
    /// So many more bytes have to be read before anything else can be said.
    /// Never zero.
    Need(usize),
    /// The frame is complete.
    Done(T),
    /// The frame breaks the protocol.
    Rejected(Socks5Error),
}

impl<T: View> View for Step<T> {
    type V = Step<T::V>;

    open spec fn view(&self) -> Step<T::V> {
        match self {
            Step::Need(n) => Step::Need(*n),
            Step::Done(value) => Step::Done(value@),
            Step::Rejected(e) => Step::Rejected(*e),
        }
    }
}

/// Where the parse of a client's greeting stands: the version, the number of
/// methods, the methods. The greeting is rejected as soon as its first byte is
/// not the version, and when the methods are complete and "no authentication"
/// is not among them.
pub open spec fn greeting_step(buf: Seq<u8>) -> Step<()> {
    if buf.len() < 1 {
        Step::Need(1)
    } else if buf[0] != VERSION {
        Step::Rejected(Socks5Error::NotSocks5)
    } else if buf.len() < 2 {
        Step::Need(1)
    } else if buf.len() < 2 + buf[1] {
        Step::Need((2 + buf[1] - buf.len()) as usize)
    } else if !buf.subrange(2, 2 + buf[1]).contains(NO_AUTH) {
        Step::Rejected(Socks5Error::NoAuthNotOffered)
    } else {
        Step::Done(())
    }
}

/// Where the parse of a CONNECT request stands: four header bytes, the
/// address in the form that the header's last byte names, two port bytes.
/// Header and domain name are checked as soon as they are complete. Bytes
/// behind the request are ignored.
#[verifier::opaque]
pub open spec fn request_step(buf: Seq<u8>) -> Step<DestinationView> {
    let len = buf.len();
    if len < 4 {
        Step::Need((4 - len) as usize)
    } else if buf[0] != VERSION || buf[1] != CMD_CONNECT {
        Step::Rejected(Socks5Error::ConnectRequired)
    } else if buf[3] == ATYP_V4 {
        if len < 10 {
            Step::Need((10 - len) as usize)
        } else {
            Step::Done(
                DestinationView {
                    host: AddressView::V4(buf.subrange(4, 8)),
                    port: port_of(buf[8], buf[9]),
                },
            )
        }
    } else if buf[3] == ATYP_DOMAIN {
        if len < 5 {
            Step::Need(1)
        } else {
            let n = buf[4] as int;
            if len < 5 + n {
                Step::Need((5 + n - len) as usize)
            } else {
                match spec_decode_name(buf.subrange(5, 5 + n)) {
                    None => Step::Rejected(Socks5Error::InvalidDomain),
                    Some(name) => if len < 7 + n {
                        Step::Need((7 + n - len) as usize)
                    } else {
                        Step::Done(
                            DestinationView {
                                host: AddressView::Domain(name),
                                port: port_of(buf[5 + n], buf[6 + n]),
                            },
                        )
                    },
                }
            }
        }
    } else if buf[3] == ATYP_V6 {
        if len < 22 {
            Step::Need((22 - len) as usize)
        } else {
            Step::Done(
                DestinationView {
                    host: AddressView::V6(buf.subrange(4, 20)),
                    port: port_of(buf[20], buf[21]),
                },
            )
        }
    } else {
        Step::Rejected(Socks5Error::UnknownAddressType)
    }
}

/// A parse never asks for no bytes, and before the first byte it asks for
/// some.
pub proof fn lemma_need_is_positive(buf: Seq<u8>)
    ensures
        greeting_step(buf) matches Step::Need(n) ==> n > 0,
        request_step(buf) matches Step::Need(n) ==> n > 0,
        greeting_step(Seq::empty()) is Need,
        request_step(Seq::empty()) is Need,
{
    reveal(request_step);
}

/// Says where the parse of a client's greeting stands after `buf`.
pub fn parse_greeting(buf: &[u8]) -> (step: Step<()>)
    ensures
        step@ == greeting_step(buf@),
{
    let len = buf.len();
    if len < 1 {
        return Step::Need(1);
    }
    if buf[0] != VERSION {
        return Step::Rejected(Socks5Error::NotSocks5);
    }
    if len < 2 {
        return Step::Need(1);
    }
    let n_methods = buf[1] as usize;
    if len < 2 + n_methods {
        return Step::Need(2 + n_methods - len);
    }
    let ghost methods = buf@.subrange(2, 2 + n_methods);
    let mut i: usize = 0;
    while i < n_methods
        invariant
            i <= n_methods,
            n_methods == buf@[1],
            buf@[0] == VERSION,
            2 + n_methods <= buf@.len(),
            methods == buf@.subrange(2, 2 + n_methods),
            forall|j: int| 0 <= j < i ==> methods[j] != NO_AUTH,
        decreases n_methods - i,
    {
        if buf[2 + i] == NO_AUTH {
            assert(methods[i as int] == NO_AUTH);
            return Step::Done(());
        }
        i += 1;
    }
    Step::Rejected(Socks5Error::NoAuthNotOffered)
}

/// The port that two bytes spell, most significant first.
fn read_port(high: u8, low: u8) -> (port: u16)
    ensures
        port == port_of(high, low),
{
    (high as u16) * 256 + (low as u16)
}

/// Says where the parse of a CONNECT request stands after `buf`, and which
/// destination the request names once it is complete.
pub fn parse_request(buf: &[u8]) -> (step: Step<Destination>)
    ensures
        step@ == request_step(buf@),
{
    reveal(request_step);
    let len = buf.len();
    if len < 4 {
        return Step::Need(4 - len);
    }
    if buf[0] != VERSION || buf[1] != CMD_CONNECT {
        return Step::Rejected(Socks5Error::ConnectRequired);
    }
    let atyp = buf[3];
    if atyp == ATYP_V4 {
        if len < 10 {
            return Step::Need(10 - len);
        }
        let ip: [u8; 4] = [buf[4], buf[5], buf[6], buf[7]];
        assert(ip@ =~= buf@.subrange(4, 8));
        Step::Done(
            Destination { host: Address::Ip(IpAddress::V4(ip)), port: read_port(buf[8], buf[9]) },
        )
    } else if atyp == ATYP_DOMAIN {
        if len < 5 {
            return Step::Need(1);
        }
        let n = buf[4] as usize;
        if len < 5 + n {
            return Step::Need(5 + n - len);
        }
        match decode_name(slice_subrange(buf, 5, 5 + n)) {
            None => Step::Rejected(Socks5Error::InvalidDomain),
            Some(name) => {
                if len < 7 + n {
                    Step::Need(7 + n - len)
                } else {
                    Step::Done(
                        Destination {
                            host: Address::Domain(name),
                            port: read_port(buf[5 + n], buf[6 + n]),
                        },
                    )
                }
            },
        }
    } else if atyp == ATYP_V6 {
        if len < 22 {
            return Step::Need(22 - len);
        }
        let mut ip: [u8; 16] = [0u8; 16];
        let mut i: usize = 0;
        while i < 16
            invariant
                i <= 16,
                22 <= buf@.len(),
                forall|j: int| 0 <= j < i ==> ip@[j] == buf@[4 + j],
            decreases 16 - i,
        {
            ip[i] = buf[4 + i];
            i += 1;
        }
        assert(ip@ =~= buf@.subrange(4, 20));
        Step::Done(
            Destination { host: Address::Ip(IpAddress::V6(ip)), port: read_port(buf[20], buf[21]) },
        )
    } else {
        Step::Rejected(Socks5Error::UnknownAddressType)
    }
}

/// Two port bytes spell the port they were made from.
pub proof fn lemma_port_round_trip(port: u16)
    ensures
        port_of(port_bytes(port)[0], port_bytes(port)[1]) == port,
{
}

/// A destination is valid when its IP address has the length of its kind and
/// its domain name fits a request.
pub open spec fn valid_destination(dest: DestinationView) -> bool {
    match dest.host {
        AddressView::V4(ip) => ip.len() == 4,
        AddressView::V6(ip) => ip.len() == 16,
        AddressView::Domain(name) => dest.host.fits_request(),
    }
}

/// Decoding the request that was encoded for a destination gives that
/// destination back, whether it is an IPv4 address, an IPv6 address or a
/// domain name of at most 255 bytes.
pub proof fn lemma_request_round_trip(dest: DestinationView)
    requires
        valid_destination(dest),
    ensures
        request_step(spec_request(dest)) == Step::Done(dest),
{
    reveal(request_step);
    let buf = spec_request(dest);
    lemma_port_round_trip(dest.port);
    match dest.host {
        AddressView::V4(ip) => {
            assert(buf.subrange(4, 8) =~= ip);
        },
        AddressView::V6(ip) => {
            assert(buf.subrange(4, 20) =~= ip);
        },
        AddressView::Domain(name) => {
            let raw = encode_utf8(name);
            lemma_decode_encoded_name(name);
            assert(buf.subrange(5, 5 + raw.len() as int) =~= raw);
        },
    }
}

/// The part of the dialogue with a local client that the server is in.
#[derive(Clone, Copy, Debug, PartialEq, Eq, Structural)]
pub enum ServerPhase {
    /// The client's greeting is being read.
    Greeting,
    /// The method was selected and the client's request is being read.
    Request,
    /// The request was accepted.
    Resolved,
    /// The client broke the protocol.
    Failed,
}

/// The server's side of the dialogue with a local client, as a machine that
/// is fed what was read from the client and says what to answer.
pub struct ServerHandshake {
    phase: ServerPhase,
    buf: Vec<u8>,
}

/// A [`ServerHandshake`] as a plain value: the phase, and the bytes of the
/// current frame that were read so far.
pub ghost struct ServerView {
    pub phase: ServerPhase,
    pub buf: Seq<u8>,
}

/// What the server does after a piece of input.
#[derive(Debug)]
pub enum ServerReply {
    /// Nothing yet: more input is needed.
    Continue,
    /// The greeting is complete: "no authentication" is selected.
    MethodSelected,
    /// The request is complete and accepted: the client wants to reach this
    /// destination.
    Resolved(Destination),
    /// The client broke the protocol: the connection is to be closed.
    Rejected(Socks5Error),
}

/// A [`ServerReply`] as a plain value.
pub ghost enum ServerReplyView {
    Continue,
    MethodSelected,
    Resolved(DestinationView),
    Rejected(Socks5Error),
}

impl View for ServerReply {
    type V = ServerReplyView;

    open spec fn view(&self) -> ServerReplyView {
        match self {
            ServerReply::Continue => ServerReplyView::Continue,
            ServerReply::MethodSelected => ServerReplyView::MethodSelected,
            ServerReply::Resolved(dest) => ServerReplyView::Resolved(dest@),
            ServerReply::Rejected(e) => ServerReplyView::Rejected(*e),
        }
    }
}

impl ServerReplyView {
    /// The bytes that go to the client with this reply: the selected method,
    /// or the success reply, whose bound address and port are all zero.
    pub open spec fn frame(self) -> Seq<u8> {
        match self {
            ServerReplyView::MethodSelected => seq![VERSION, NO_AUTH],
            ServerReplyView::Resolved(_) => seq![
                VERSION,
                REPLY_SUCCEEDED,
                0u8,
                ATYP_V4,
                0u8,
                0u8,
                0u8,
                0u8,
                0u8,
                0u8,
            ],
            _ => Seq::empty(),
        }
    }
}

impl ServerReply {
    /// The bytes that go to the client with this reply. Empty where nothing
    /// is sent.
    pub fn frame(&self) -> (bytes: Vec<u8>)
        ensures
            bytes@ == self@.frame(),
    {
        match self {
            ServerReply::MethodSelected => vec![VERSION, NO_AUTH],
            ServerReply::Resolved(_) => vec![VERSION, REPLY_SUCCEEDED, 0, ATYP_V4, 0, 0, 0, 0, 0, 0],
            _ => Vec::new(),
        }
    }
}

impl ServerView {
    /// The state before anything was read.
    pub open spec fn initial() -> ServerView {
        ServerView { phase: ServerPhase::Greeting, buf: Seq::empty() }
    }

    /// While a frame is being read, what was read of it is not yet enough to
    /// tell more; between frames nothing is kept.
    pub open spec fn wf(self) -> bool {
        match self.phase {
            ServerPhase::Greeting => greeting_step(self.buf) is Need,
            ServerPhase::Request => request_step(self.buf) is Need,
            _ => self.buf.len() == 0,
        }
    }

    /// How many bytes the server asks for next. Zero once the dialogue is
    /// over.
    pub open spec fn wanted(self) -> usize {
        match self.phase {
            ServerPhase::Greeting => match greeting_step(self.buf) {
                Step::Need(n) => n,
                _ => 0,
            },
            ServerPhase::Request => match request_step(self.buf) {
                Step::Need(n) => n,
                _ => 0,
            },
            _ => 0,
        }
    }

    /// The state and the reply after `input` was read.
    pub open spec fn advance(self, input: Seq<u8>) -> (ServerView, ServerReplyView) {
        let buf = self.buf + input;
        match self.phase {
            ServerPhase::Greeting => match greeting_step(buf) {
                Step::Need(_) => (
                    ServerView { phase: ServerPhase::Greeting, buf },
                    ServerReplyView::Continue,
                ),
                Step::Done(_) => (
                    ServerView { phase: ServerPhase::Request, buf: Seq::empty() },
                    ServerReplyView::MethodSelected,
                ),
                Step::Rejected(e) => (
                    ServerView { phase: ServerPhase::Failed, buf: Seq::empty() },
                    ServerReplyView::Rejected(e),
                ),
            },
            ServerPhase::Request => match request_step(buf) {
                Step::Need(_) => (
                    ServerView { phase: ServerPhase::Request, buf },
                    ServerReplyView::Continue,
                ),
                Step::Done(dest) => (
                    ServerView { phase: ServerPhase::Resolved, buf: Seq::empty() },
                    ServerReplyView::Resolved(dest),
                ),
                Step::Rejected(e) => (
                    ServerView { phase: ServerPhase::Failed, buf: Seq::empty() },
                    ServerReplyView::Rejected(e),
                ),
            },
            _ => (self, ServerReplyView::Continue),
        }
    }
}

impl View for ServerHandshake {
    type V = ServerView;

    closed spec fn view(&self) -> ServerView {
        ServerView { phase: self.phase, buf: self.buf@ }
    }
}

impl ServerHandshake {
    /// The server before anything was read from the client.
    pub fn new() -> (server: ServerHandshake)
        ensures
            server@ == ServerView::initial(),
            server@.wf(),
    {
        ServerHandshake { phase: ServerPhase::Greeting, buf: Vec::new() }
    }

    /// The phase that the dialogue is in.
    pub fn phase(&self) -> (phase: ServerPhase)
        ensures
            phase == self@.phase,
    {
        self.phase
    }

    /// How many bytes to read from the client next. Zero once the dialogue is
    /// over, and only then.
    pub fn wanted(&self) -> (n: usize)
        requires
            self@.wf(),
        ensures
            n == self@.wanted(),
            n == 0 <==> (self@.phase is Resolved || self@.phase is Failed),
    {
        proof {
            lemma_need_is_positive(self.buf@);
        }
        match self.phase {
            ServerPhase::Greeting => match parse_greeting(self.buf.as_slice()) {
                Step::Need(n) => n,
                _ => 0,
            },
            ServerPhase::Request => match parse_request(self.buf.as_slice()) {
                Step::Need(n) => n,
                _ => 0,
            },
            _ => 0,
        }
    }

    /// Takes what was read from the client, at most as many bytes as were
    /// asked for, and says what to answer.
    pub fn advance(&mut self, input: &[u8]) -> (reply: ServerReply)
        requires
            old(self)@.wf(),
            input@.len() <= old(self)@.wanted(),
        ensures
            (final(self)@, reply@) == old(self)@.advance(input@),
            final(self)@.wf(),
    {
        proof {
            lemma_need_is_positive(self.buf@);
        }
        match self.phase {
            ServerPhase::Greeting => {
                self.buf.extend_from_slice(input);
                assert(self.buf@ =~= old(self).buf@ + input@);
                match parse_greeting(self.buf.as_slice()) {
                    Step::Need(_) => ServerReply::Continue,
                    Step::Done(_) => {
                        self.phase = ServerPhase::Request;
                        self.buf.clear();
                        ServerReply::MethodSelected
                    },
                    Step::Rejected(e) => {
                        self.phase = ServerPhase::Failed;
                        self.buf.clear();
                        ServerReply::Rejected(e)
                    },
                }
            },
            ServerPhase::Request => {
                self.buf.extend_from_slice(input);
                assert(self.buf@ =~= old(self).buf@ + input@);
                match parse_request(self.buf.as_slice()) {
                    Step::Need(_) => ServerReply::Continue,
                    Step::Done(dest) => {
                        self.phase = ServerPhase::Resolved;
                        self.buf.clear();
                        ServerReply::Resolved(dest)
                    },
                    Step::Rejected(e) => {
                        self.phase = ServerPhase::Failed;
                        self.buf.clear();
                        ServerReply::Rejected(e)
                    },
                }
            },
            _ => ServerReply::Continue,
        }
    }
}

/// A whole dialogue with a client: where the server stands at its end, what
/// it has sent, which destination it has accepted, and which bytes of the
/// client it has not asked for.
pub ghost struct Dialogue {
    pub state: ServerView,
    pub sent: Seq<u8>,
    pub resolved: Option<DestinationView>,
    pub rest: Seq<u8>,
}

impl ServerView {
    /// The dialogue over all the bytes that a client sends, read in the
    /// pieces that the server asks for. It ends when the server asks for no
    /// more, or for more than is left.
    pub open spec fn run(self, stream: Seq<u8>) -> Dialogue
        decreases stream.len(),
    {
        let wanted = self.wanted() as int;
        if wanted == 0 || stream.len() < wanted {
            Dialogue { state: self, sent: Seq::empty(), resolved: None, rest: stream }
        } else {
            let (next, reply) = self.advance(stream.take(wanted));
            let later = next.run(stream.skip(wanted));
            Dialogue {
                state: later.state,
                sent: reply.frame() + later.sent,
                resolved: match reply {
                    ServerReplyView::Resolved(dest) => Some(dest),
                    _ => later.resolved,
                },
                rest: later.rest,
            }
        }
    }
}

/// The greeting of a client that offers `methods`.
pub open spec fn greeting(methods: Seq<u8>) -> Seq<u8> {
    seq![VERSION, methods.len() as u8] + methods
}

/// Of a greeting that offers "no authentication", every beginning that is
/// not the whole asks for more, and for no more than the greeting has.
proof fn lemma_greeting_prefix(methods: Seq<u8>, j: int)
    requires
        methods.len() <= 255,
        methods.contains(NO_AUTH),
        0 <= j <= greeting(methods).len(),
    ensures
        j < greeting(methods).len() ==> (greeting_step(greeting(methods).take(j)) matches Step::Need(
            k,
        ) && 0 < k && j + k <= greeting(methods).len()),
        greeting_step(greeting(methods)) == Step::Done(()),
{
    let frame = greeting(methods);
    assert(frame.subrange(2, 2 + frame[1]) =~= methods);
}

/// Of the request for a destination, every beginning that is not the whole
/// asks for more, and for no more than the request has.
proof fn lemma_request_prefix(dest: DestinationView, j: int)
    requires
        valid_destination(dest),
        0 <= j < spec_request(dest).len(),
    ensures
        request_step(spec_request(dest).take(j)) matches Step::Need(k) && 0 < k && j + k
            <= spec_request(dest).len(),
{
    reveal(request_step);
    let frame = spec_request(dest);
    let begun = frame.take(j);
    match dest.host {
        AddressView::Domain(name) => {
            let raw = encode_utf8(name);
            lemma_decode_encoded_name(name);
            if j >= 5 + raw.len() {
                assert(begun.subrange(5, 5 + raw.len() as int) =~= raw);
            }
        },
        _ => {},
    }
}

/// A server in the middle of a greeting that offers "no authentication"
/// reads the rest of it, selects that method, and goes on with what follows.
proof fn lemma_run_greeting(methods: Seq<u8>, j: int, tail: Seq<u8>)
    requires
        methods.len() <= 255,
        methods.contains(NO_AUTH),
        0 <= j < greeting(methods).len(),
    ensures
        ({
            let begun = ServerView {
                phase: ServerPhase::Greeting,
                buf: greeting(methods).take(j),
            };
            let behind = ServerView { phase: ServerPhase::Request, buf: Seq::empty() }.run(tail);
            begun.run(greeting(methods).skip(j) + tail) == (Dialogue {
                sent: seq![VERSION, NO_AUTH] + behind.sent,
                ..behind
            })
        }),
    decreases greeting(methods).len() - j,
{
    let frame = greeting(methods);
    let begun = ServerView { phase: ServerPhase::Greeting, buf: frame.take(j) };
    let stream = frame.skip(j) + tail;
    lemma_greeting_prefix(methods, j);
    let k = begun.wanted() as int;
    assert(frame.take(j) + stream.take(k) =~= frame.take(j + k));
    if j + k == frame.len() {
        assert(frame.take(j + k) =~= frame);
        assert(stream.skip(k) =~= tail);
    } else {
        lemma_greeting_prefix(methods, j + k);
        assert(stream.skip(k) =~= frame.skip(j + k) + tail);
        lemma_run_greeting(methods, j + k, tail);
    }
}

/// A server in the middle of the request for a destination reads the rest of
/// it, accepts that destination, and asks for nothing of what follows.
proof fn lemma_run_request(dest: DestinationView, j: int, tail: Seq<u8>)
    requires
        valid_destination(dest),
        0 <= j < spec_request(dest).len(),
    ensures
        ({
            let begun = ServerView { phase: ServerPhase::Request, buf: spec_request(dest).take(j) };
            begun.run(spec_request(dest).skip(j) + tail) == (Dialogue {
                state: ServerView { phase: ServerPhase::Resolved, buf: Seq::empty() },
                sent: ServerReplyView::Resolved(dest).frame(),
                resolved: Some(dest),
                rest: tail,
            })
        }),
    decreases spec_request(dest).len() - j,
{
    let frame = spec_request(dest);
    let begun = ServerView { phase: ServerPhase::Request, buf: frame.take(j) };
    let stream = frame.skip(j) + tail;
    lemma_request_prefix(dest, j);
    let k = begun.wanted() as int;
    assert(frame.take(j) + stream.take(k) =~= frame.take(j + k));
    if j + k == frame.len() {
        assert(frame.take(j + k) =~= frame);
        assert(stream.skip(k) =~= tail);
        lemma_request_round_trip(dest);
        let end = ServerView { phase: ServerPhase::Resolved, buf: Seq::empty() };
        assert(ServerReplyView::Resolved(dest).frame() + end.run(tail).sent
            =~= ServerReplyView::Resolved(dest).frame());
    } else {
        lemma_request_prefix(dest, j + k);
        assert(stream.skip(k) =~= frame.skip(j + k) + tail);
        lemma_run_request(dest, j + k, tail);
    }
}

/// A client that offers "no authentication" among its methods and then asks
/// for a connection to `dest` is served: the server selects the method,
/// accepts exactly `dest`, answers with the success reply, and asks for none
/// of the bytes that the client sends behind its request.
pub proof fn lemma_server_resolves_request(methods: Seq<u8>, dest: DestinationView, rest: Seq<u8>)
    requires
        methods.len() <= 255,
        methods.contains(NO_AUTH),
        valid_destination(dest),
    ensures
        ServerView::initial().run(greeting(methods) + spec_request(dest) + rest) == (Dialogue {
            state: ServerView { phase: ServerPhase::Resolved, buf: Seq::empty() },
            sent: ServerReplyView::MethodSelected.frame() + ServerReplyView::Resolved(dest).frame(),
            resolved: Some(dest),
            rest,
        }),
{
    let hello = greeting(methods);
    let frame = spec_request(dest);
    lemma_run_greeting(methods, 0, frame + rest);
    lemma_run_request(dest, 0, rest);
    assert(frame.take(0) =~= Seq::<u8>::empty());
    assert(hello.skip(0) + (frame + rest) =~= hello + frame + rest);
    assert(frame.skip(0) + rest =~= frame + rest);
}

/// The greeting that the proxy sends upstream: one method, "no
/// authentication".
pub open spec fn method_offer() -> Seq<u8> {
    seq![VERSION, 1u8, NO_AUTH]
}

/// The upstream proxy selected "no authentication": its reply is the version
/// and that method, and nothing else.
pub open spec fn method_reply_ok(reply: Seq<u8>) -> bool {
    reply =~= seq![VERSION, NO_AUTH]
}

/// The upstream proxy reported success: its reply starts with the version and
/// the code "succeeded". What address it says it bound is not looked at.
pub open spec fn connect_reply_ok(reply: Seq<u8>) -> bool {
    reply.len() >= 2 && reply[0] == VERSION && reply[1] == REPLY_SUCCEEDED
}

/// How long the reply to a CONNECT request is when the bound address is an
/// IPv4 address, which is what the upstream proxy is expected to send.
pub const CONNECT_REPLY_LEN: usize = 10;

/// Checks the upstream proxy's answer to the greeting.
pub fn check_method_reply(reply: &[u8]) -> (r: Result<(), Socks5Error>)
    ensures
        r == if method_reply_ok(reply@) {
            Ok::<(), Socks5Error>(())
        } else {
            Err::<(), Socks5Error>(Socks5Error::MethodRefused)
        },
{
    if reply.len() == 2 && reply[0] == VERSION && reply[1] == NO_AUTH {
        Ok(())
    } else {
        Err(Socks5Error::MethodRefused)
    }
}

/// Checks the upstream proxy's answer to the CONNECT request.
pub fn check_connect_reply(reply: &[u8]) -> (r: Result<(), Socks5Error>)
    ensures
        r == if connect_reply_ok(reply@) {
            Ok::<(), Socks5Error>(())
        } else {
            Err::<(), Socks5Error>(Socks5Error::RequestRefused)
        },
{
    if reply.len() >= 2 && reply[0] == VERSION && reply[1] == REPLY_SUCCEEDED {
        Ok(())
    } else {
        Err(Socks5Error::RequestRefused)
    }
}

/// The part of the dialogue with the upstream proxy that the proxy is in.
#[derive(Clone, Copy, Debug, PartialEq, Eq, Structural)]
pub enum UpstreamPhase {
    /// The greeting was sent; the selected method is awaited.
    Method,
    /// The CONNECT request was sent; its reply is awaited.
    Connect,
    /// The upstream proxy accepted the request.
    Established,
    /// The upstream proxy refused.
    Failed,
}

/// The proxy's side of the dialogue with the upstream proxy.
pub struct UpstreamHandshake {
    phase: UpstreamPhase,
    request: Vec<u8>,
    data: Option<Bytes>,
}

/// An [`UpstreamHandshake`] as a plain value: the phase, the CONNECT request
/// and the bytes that wait to be sent behind the handshake.
pub ghost struct UpstreamView {
    pub phase: UpstreamPhase,
    pub request: Seq<u8>,
    pub data: Option<Seq<u8>>,
}

/// What the proxy does after a reply of the upstream proxy.
pub enum UpstreamAction {
    /// Send the CONNECT request and read its reply.
    Request(Vec<u8>),
    /// The connection through the upstream proxy stands. Bytes that were read
    /// from the client before the handshake are sent now, before anything
    /// else.
    Established(Option<Bytes>),
    /// The upstream proxy refused: the connection is to be closed.
    Rejected(Socks5Error),
    /// The dialogue was over before: nothing is done.
    Idle,
}

/// An [`UpstreamAction`] as a plain value.
pub ghost enum UpstreamActionView {
    Request(Seq<u8>),
    Established(Option<Seq<u8>>),
    Rejected(Socks5Error),
    Idle,
}

impl View for UpstreamAction {
    type V = UpstreamActionView;

    open spec fn view(&self) -> UpstreamActionView {
        match self {
            UpstreamAction::Request(bytes) => UpstreamActionView::Request(bytes@),
            UpstreamAction::Established(Some(data)) => UpstreamActionView::Established(
                Some(contents(data)),
            ),
            UpstreamAction::Established(None) => UpstreamActionView::Established(None),
            UpstreamAction::Rejected(e) => UpstreamActionView::Rejected(*e),
            UpstreamAction::Idle => UpstreamActionView::Idle,
        }
    }
}

impl UpstreamActionView {
    /// The bytes that go to the upstream proxy with this action.
    pub open spec fn sent(self) -> Seq<u8> {
        match self {
            UpstreamActionView::Request(bytes) => bytes,
            UpstreamActionView::Established(Some(data)) => data,
            _ => Seq::empty(),
        }
    }
}

impl UpstreamView {
    /// The state after the greeting was sent.
    pub open spec fn start(dest: DestinationView, data: Option<Seq<u8>>) -> UpstreamView {
        UpstreamView { phase: UpstreamPhase::Method, request: spec_request(dest), data }
    }

    /// How many bytes of reply the proxy reads next.
    pub open spec fn wanted(self) -> usize {
        match self.phase {
            UpstreamPhase::Method => 2,
            UpstreamPhase::Connect => CONNECT_REPLY_LEN,
            _ => 0,
        }
    }

    /// The state and the action after the upstream proxy's `reply`.
    pub open spec fn advance(self, reply: Seq<u8>) -> (UpstreamView, UpstreamActionView) {
        match self.phase {
            UpstreamPhase::Method => if method_reply_ok(reply) {
                (
                    UpstreamView { phase: UpstreamPhase::Connect, ..self },
                    UpstreamActionView::Request(self.request),
                )
            } else {
                (
                    UpstreamView { phase: UpstreamPhase::Failed, request: self.request, data: None },
                    UpstreamActionView::Rejected(Socks5Error::MethodRefused),
                )
            },
            UpstreamPhase::Connect => if connect_reply_ok(reply) {
                (
                    UpstreamView {
                        phase: UpstreamPhase::Established,
                        request: self.request,
                        data: None,
                    },
                    UpstreamActionView::Established(self.data),
                )
            } else {
                (
                    UpstreamView { phase: UpstreamPhase::Failed, request: self.request, data: None },
                    UpstreamActionView::Rejected(Socks5Error::RequestRefused),
                )
            },
            _ => (self, UpstreamActionView::Idle),
        }
    }
}

impl View for UpstreamHandshake {
    type V = UpstreamView;

    closed spec fn view(&self) -> UpstreamView {
        UpstreamView {
            phase: self.phase,
            request: self.request@,
            data: match self.data {
                Some(data) => Some(contents(&data)),
                None => None,
            },
        }
    }
}

impl UpstreamHandshake {
    /// The phase that the dialogue is in.
    pub fn phase(&self) -> (phase: UpstreamPhase)
        ensures
            phase == self@.phase,
    {
        self.phase
    }

    /// How many bytes of reply to read from the upstream proxy next. Zero
    /// once the dialogue is over.
    pub fn wanted(&self) -> (n: usize)
        ensures
            n == self@.wanted(),
    {
        match self.phase {
            UpstreamPhase::Method => 2,
            UpstreamPhase::Connect => CONNECT_REPLY_LEN,
            _ => 0,
        }
    }
}

/// Opens the dialogue with the upstream proxy for a connection to `dest`.
/// Returns the state of the dialogue and the greeting, which is to be sent at
/// once. `data` is what was read from the client before: it is handed back
/// for sending when the handshake has succeeded.
pub fn handshake(dest: &Destination, data: Option<Bytes>) -> (r: (UpstreamHandshake, Vec<u8>))
    requires
        dest@.host.fits_request(),
    ensures
        r.0@ == UpstreamView::start(
            dest@,
            match data {
                Some(data) => Some(contents(&data)),
                None => None,
            },
        ),
        r.1@ == method_offer(),
{
    let mut request = Vec::new();
    build_request(&mut request, dest);
    let offer = vec![VERSION, 1, NO_AUTH];
    (UpstreamHandshake { phase: UpstreamPhase::Method, request, data }, offer)
}

/// Takes the reply that was read from the upstream proxy and says how the
/// dialogue goes on.
pub fn do_handshake(state: &mut UpstreamHandshake, reply: &[u8]) -> (action: UpstreamAction)
    ensures
        (final(state)@, action@) == old(state)@.advance(reply@),
{
    match state.phase {
        UpstreamPhase::Method => match check_method_reply(reply) {
            Ok(_) => {
                state.phase = UpstreamPhase::Connect;
                UpstreamAction::Request(state.request.clone())
            },
            Err(e) => {
                state.phase = UpstreamPhase::Failed;
                state.data = None;
                UpstreamAction::Rejected(e)
            },
        },
        UpstreamPhase::Connect => match check_connect_reply(reply) {
            Ok(_) => {
                state.phase = UpstreamPhase::Established;
                UpstreamAction::Established(state.data.take())
            },
            Err(e) => {
                state.phase = UpstreamPhase::Failed;
                state.data = None;
                UpstreamAction::Rejected(e)
            },
        },
        _ => UpstreamAction::Idle,
    }
}

/// Bytes that were read from the client before the handshake go upstream
/// once, directly behind the CONNECT request, and only when both replies of
/// the upstream proxy were good; after that the handshake sends nothing more.
pub proof fn lemma_early_data_follows_request(
    dest: DestinationView,
    data: Option<Seq<u8>>,
    method_reply: Seq<u8>,
    connect_reply: Seq<u8>,
    later: Seq<u8>,
)
    ensures
        ({
            let start = UpstreamView::start(dest, data);
            let (second, first_action) = start.advance(method_reply);
            let (third, second_action) = second.advance(connect_reply);
            let early = match data {
                Some(bytes) => bytes,
                None => Seq::empty(),
            };
            &&& third.phase is Established <==> method_reply_ok(method_reply) && connect_reply_ok(
                connect_reply,
            )
            &&& third.phase is Established ==> method_offer() + first_action.sent()
                + second_action.sent() == method_offer() + spec_request(dest) + early
            &&& third.phase is Established ==> third.advance(later) == (
                third,
                UpstreamActionView::Idle,
            )
            &&& !(third.phase is Established) ==> !(first_action is Established)
                && !(second_action is Established)
        }),
{
}

} // verus!
