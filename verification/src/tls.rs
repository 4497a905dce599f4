//! Finding the server name in a TLS ClientHello.
//!
//! The parser works on one buffer: the record header, the handshake header and
//! the whole ClientHello have to be in it. A record that continues in a later
//! read is reported as an error, not waited for.

use crate::names::{decode_name, spec_decode_name};
use std::ops::Range;
use vstd::prelude::*;
use vstd::slice::slice_subrange;

verus! {

/// Why a buffer was not accepted as a ClientHello.
pub enum TlsError {
    /// The bytes of a length prefix are not all inside the buffer.
    MissingLength,
    /// A length prefix announces more bytes than follow it.
    FieldOverrun,
    /// The record's major version is not 3.
    RecordVersion,
    /// The record's content type is not handshake.
    NotHandshake,
    /// The handshake message is not a ClientHello.
    NotClientHello,
    /// The ClientHello's own version does not start with 3.
    HelloVersion,
    /// The host name is not UTF-8.
    InvalidName,
}

impl TlsError {
    /// The text under which the parser reports this error.
    pub open spec fn message(self) -> Seq<char> {
        match self {
            TlsError::MissingLength => "no enough data length to decode"@,
            TlsError::FieldOverrun => "error when get index"@,
            TlsError::RecordVersion => "unknown tls version"@,
            TlsError::NotHandshake => "not a handshake"@,
            TlsError::NotClientHello => "handshake type isn't a client hello"@,
            TlsError::HelloVersion => "unsupported TLS version"@,
            TlsError::InvalidName => "error when parse from raw data"@,
        }
    }
}

/// Content type of a handshake record.
pub const CONTENT_HANDSHAKE: u8 = 22;

/// Handshake type of a ClientHello.
pub const HANDSHAKE_CLIENT_HELLO: u8 = 1;

/// The major version that every record and every ClientHello must carry.
pub const TLS_MAJOR: u8 = 3;

/// The number that `bytes` spell, most significant byte first.
pub open spec fn be_value(bytes: Seq<u8>) -> nat
    decreases bytes.len(),
{
    if bytes.len() == 0 {
        0
    } else {
        be_value(bytes.drop_last()) * 256 + bytes.last() as nat
    }
}

/// The field whose length stands in `data[start..end]`: the bytes that follow
/// the length, as many as it says.
pub open spec fn prefixed_field(data: Seq<u8>, start: int, end: int) -> Result<Seq<u8>, TlsError> {
    if !(0 <= start <= end <= data.len()) {
        Err(TlsError::MissingLength)
    } else {
        let len = be_value(data.subrange(start, end));
        if end + len > data.len() {
            Err(TlsError::FieldOverrun)
        } else {
            Ok(data.subrange(end, end + len))
        }
    }
}

/// What is left of `data` behind the field whose length stands in
/// `data[start..end]`.
pub open spec fn after_field(data: Seq<u8>, start: int, end: int) -> Result<Seq<u8>, TlsError> {
    match prefixed_field(data, start, end) {
        Ok(field) => Ok(data.skip(end + field.len())),
        Err(e) => Err(e),
    }
}

/// How an executable result stands for a result of the model: the same bytes,
/// or the message of the same error.
pub open spec fn reports(r: Result<&[u8], &'static str>, model: Result<Seq<u8>, TlsError>) -> bool {
    match model {
        Ok(bytes) => r matches Ok(s) && s@ == bytes,
        Err(e) => r matches Err(m) && m@ == e.message(),
    }
}

/// Adding bytes at the end never makes the number smaller.
pub proof fn lemma_be_value_grows(bytes: Seq<u8>, k: int)
    requires
        0 <= k <= bytes.len(),
    ensures
        be_value(bytes.take(k)) <= be_value(bytes),
    decreases bytes.len() - k,
{
    if k == bytes.len() {
        assert(bytes.take(k) =~= bytes);
    } else {
        lemma_be_value_grows(bytes, k + 1);
        let longer = bytes.take(k + 1);
        assert(longer.drop_last() =~= bytes.take(k));
        assert(be_value(bytes.take(k)) <= be_value(bytes.take(k)) * 256) by (nonlinear_arith);
    }
}

/// Reads the length in `data[len_range]` and returns the bytes of that length
/// which follow it.
pub fn slice_by_at_range(data: &[u8], len_range: Range<usize>) -> (r: Result<&[u8], &'static str>)
    ensures
        reports(r, prefixed_field(data@, len_range.start as int, len_range.end as int)),
{
    let start = len_range.start;
    let end = len_range.end;
    if start > end || end > data.len() {
        return Err("no enough data length to decode");
    }
    let room: usize = data.len() - end;
    let ghost digits = data@.subrange(start as int, end as int);
    let mut actual_len: usize = 0;
    let mut i: usize = start;
    while i < end
        invariant
            start == len_range.start,
            end == len_range.end,
            start <= i <= end <= data.len(),
            room == data.len() - end,
            digits == data@.subrange(start as int, end as int),
            actual_len == be_value(digits.take(i - start)),
            actual_len <= room,
        decreases end - i,
    {
        let byte = data[i];
        proof {
            let longer = digits.take(i + 1 - start);
            assert(longer.drop_last() =~= digits.take(i - start));
            lemma_be_value_grows(digits, i + 1 - start);
        }
        let shifted = match actual_len.checked_mul(256) {
            Some(v) => v,
            None => {
                return Err("error when get index");
            },
        };
        let next = match shifted.checked_add(byte as usize) {
            Some(v) => v,
            None => {
                return Err("error when get index");
            },
        };
        if next > room {
            return Err("error when get index");
        }
        actual_len = next;
        i += 1;
    }
    assert(digits.take(end - start) =~= digits);
    Ok(slice_subrange(data, end, end + actual_len))
}

/// Drops the field whose length stands in `data[len_range]`, and everything
/// before it.
pub fn truncate_before(data: &[u8], len_range: Range<usize>) -> (r: Result<&[u8], &'static str>)
    ensures
        reports(r, after_field(data@, len_range.start as int, len_range.end as int)),
{
    let end = len_range.end;
    match slice_by_at_range(data, len_range) {
        Ok(field) => {
            assert(end + field.len() <= data.len());
            Ok(slice_subrange(data, end + field.len(), data.len()))
        },
        Err(e) => Err(e),
    }
}

/// One TLS record: its header and the bytes it carries.
pub struct TlsRecord<'a> {
    content_type: u8,
    major_version: u8,
    minor_version: u8,
    fragment: &'a [u8],
}

/// A record as plain values.
pub ghost struct TlsRecordView {
    pub content_type: u8,
    pub major_version: u8,
    pub minor_version: u8,
    pub fragment: Seq<u8>,
}

impl<'a> View for TlsRecord<'a> {
    type V = TlsRecordView;

    closed spec fn view(&self) -> TlsRecordView {
        TlsRecordView {
            content_type: self.content_type,
            major_version: self.major_version,
            minor_version: self.minor_version,
            fragment: self.fragment@,
        }
    }
}

impl<'a> TlsRecord<'a> {
    /// The record's content type.
    pub fn content_type(&self) -> (t: u8)
        ensures
            t == self@.content_type,
    {
        self.content_type
    }

    /// The first byte of the record's protocol version.
    pub fn major_version(&self) -> (v: u8)
        ensures
            v == self@.major_version,
    {
        self.major_version
    }

    /// The second byte of the record's protocol version.
    pub fn minor_version(&self) -> (v: u8)
        ensures
            v == self@.minor_version,
    {
        self.minor_version
    }

    /// The bytes that the record carries.
    pub fn fragment(&self) -> (f: &'a [u8])
        ensures
            f@ == self@.fragment,
    {
        self.fragment
    }
}

/// The record at the start of `data`: three header bytes, a length of two
/// bytes, and as many bytes as the length says.
pub open spec fn tls_record(data: Seq<u8>) -> Result<TlsRecordView, TlsError> {
    match prefixed_field(data, 3, 5) {
        Ok(fragment) => Ok(
            TlsRecordView {
                content_type: data[0],
                major_version: data[1],
                minor_version: data[2],
                fragment,
            },
        ),
        Err(e) => Err(e),
    }
}

/// Splits the record at the start of `data` into header and fragment. Bytes
/// behind the record are ignored.
pub fn parse_tls_record<'a>(data: &'a [u8]) -> (r: Result<TlsRecord<'a>, &'static str>)
    ensures
        match tls_record(data@) {
            Ok(record) => r matches Ok(found) && found@ == record,
            Err(e) => r matches Err(m) && m@ == e.message(),
        },
{
    match slice_by_at_range(data, 3..5) {
        Ok(fragment) => Ok(
            TlsRecord {
                content_type: data[0],
                major_version: data[1],
                minor_version: data[2],
                fragment,
            },
        ),
        Err(e) => Err(e),
    }
}

/// What a ClientHello told about the connection. Only the server name is kept.
pub struct TlsClientHello {
    pub server_name: Option<String>,
}

impl View for TlsClientHello {
    type V = Option<Seq<char>>;

    open spec fn view(&self) -> Option<Seq<char>> {
        match self.server_name {
            Some(name) => Some(name@),
            None => None,
        }
    }
}

/// The extension type of the server name indication.
pub open spec fn is_server_name_extension(exts: Seq<u8>) -> bool {
    exts[0] == 0 && exts[1] == 0
}

/// The name in the body of one server-name extension: two bytes of list
/// length, the name type, two bytes of name length, the name. `Ok(None)` where
/// the name type is not "host name".
pub open spec fn extension_host_name(body: Seq<u8>) -> Result<Option<Seq<char>>, TlsError> {
    if body.len() < 3 {
        Err(TlsError::MissingLength)
    } else if body[2] != 0 {
        Ok(None)
    } else {
        match prefixed_field(body, 3, 5) {
            Ok(raw) => match spec_decode_name(raw) {
                Some(name) => Ok(Some(name)),
                None => Err(TlsError::InvalidName),
            },
            Err(e) => Err(e),
        }
    }
}

/// The server name that a list of extensions gives, where `found` is the one
/// that the extensions before it gave. Each extension is a type of two bytes,
/// a length of two bytes and a body of that length; the last host name in the
/// list is the one that counts. A rest of four bytes or fewer ends the list.
pub open spec fn extensions_server_name(exts: Seq<u8>, found: Option<Seq<char>>) -> Result<
    Option<Seq<char>>,
    TlsError,
>
    decreases exts.len(),
{
    if exts.len() <= 4 {
        Ok(found)
    } else {
        match prefixed_field(exts, 2, 4) {
            Ok(body) => {
                let rest = exts.skip(4 + body.len() as int);
                if is_server_name_extension(exts) {
                    match extension_host_name(body) {
                        Ok(Some(name)) => extensions_server_name(rest, Some(name)),
                        Ok(None) => extensions_server_name(rest, found),
                        Err(e) => Err(e),
                    }
                } else {
                    extensions_server_name(rest, found)
                }
            },
            Err(e) => Err(e),
        }
    }
}

/// The extension list of the ClientHello in `data`, after every check on the
/// headers in front of it: the record holds a handshake of major version 3,
/// the handshake is a ClientHello whose version starts with 3, and behind the
/// version and the 32 random bytes stand the session id, the cipher suites and
/// the compression methods, each behind its length.
pub open spec fn client_hello_extensions(data: Seq<u8>) -> Result<Seq<u8>, TlsError> {
    match tls_record(data) {
        Err(e) => Err(e),
        Ok(record) => if record.major_version != TLS_MAJOR {
            Err(TlsError::RecordVersion)
        } else if record.content_type != CONTENT_HANDSHAKE {
            Err(TlsError::NotHandshake)
        } else if record.fragment.len() == 0 || record.fragment[0] != HANDSHAKE_CLIENT_HELLO {
            Err(TlsError::NotClientHello)
        } else {
            match prefixed_field(record.fragment, 1, 4) {
                Err(e) => Err(e),
                Ok(body) => if body.len() == 0 || body[0] != TLS_MAJOR {
                    Err(TlsError::HelloVersion)
                } else {
                    match after_field(body, 34, 35) {
                        Err(e) => Err(e),
                        Ok(after_session) => match after_field(after_session, 0, 2) {
                            Err(e) => Err(e),
                            Ok(after_suites) => match after_field(after_suites, 0, 1) {
                                Err(e) => Err(e),
                                Ok(after_compression) => prefixed_field(after_compression, 0, 2),
                            },
                        },
                    }
                },
            }
        },
    }
}

/// The server name of the ClientHello in `data`, `None` where it names none.
pub open spec fn client_hello_server_name(data: Seq<u8>) -> Result<Option<Seq<char>>, TlsError> {
    match client_hello_extensions(data) {
        Ok(exts) => extensions_server_name(exts, None),
        Err(e) => Err(e),
    }
}

/// How an executable result stands for a server name of the model.
pub open spec fn reports_hello(
    r: Result<TlsClientHello, &'static str>,
    model: Result<Option<Seq<char>>, TlsError>,
) -> bool {
    match model {
        Ok(name) => r matches Ok(hello) && hello@ == name,
        Err(e) => r matches Err(m) && m@ == e.message(),
    }
}

/// Reads the host name out of the body of a server-name extension.
fn parse_host_name(body: &[u8]) -> (r: Result<Option<String>, &'static str>)
    ensures
        match extension_host_name(body@) {
            Ok(Some(name)) => r matches Ok(Some(s)) && s@ == name,
            Ok(None) => r matches Ok(None),
            Err(e) => r matches Err(m) && m@ == e.message(),
        },
{
    if body.len() < 3 {
        return Err("no enough data length to decode");
    }
    if body[2] != 0 {
        return Ok(None);
    }
    match slice_by_at_range(body, 3..5) {
        Ok(raw) => match decode_name(raw) {
            Some(name) => Ok(Some(name)),
            None => Err("error when parse from raw data"),
        },
        Err(e) => Err(e),
    }
}

/// Walks the extension list and returns the server name it gives.
fn parse_extensions(exts: &[u8]) -> (r: Result<TlsClientHello, &'static str>)
    ensures
        reports_hello(r, extensions_server_name(exts@, None)),
{
    let mut rest = exts;
    let mut server_name: Option<String> = None;
    while rest.len() > 4
        invariant
            extensions_server_name(exts@, None) == extensions_server_name(
                rest@,
                match server_name {
                    Some(name) => Some(name@),
                    None => None,
                },
            ),
        decreases rest.len(),
    {
        let is_server_name = rest[0] == 0 && rest[1] == 0;
        let body = match slice_by_at_range(rest, 2..4) {
            Ok(body) => body,
            Err(e) => {
                return Err(e);
            },
        };
        if is_server_name {
            match parse_host_name(body) {
                Ok(Some(name)) => {
                    server_name = Some(name);
                },
                Ok(None) => {},
                Err(e) => {
                    return Err(e);
                },
            }
        }
        rest = slice_subrange(rest, 4 + body.len(), rest.len());
    }
    Ok(TlsClientHello { server_name })
}

/// Parses `data` as a TLS record that holds a ClientHello and returns the
/// server name that the ClientHello indicates, if it indicates one.
pub fn parse_client_hello(data: &[u8]) -> (r: Result<TlsClientHello, &'static str>)
    ensures
        reports_hello(r, client_hello_server_name(data@)),
{
    let record = match parse_tls_record(data) {
        Ok(record) => record,
        Err(e) => {
            return Err(e);
        },
    };
    if record.major_version != TLS_MAJOR {
        return Err("unknown tls version");
    }
    if record.content_type != CONTENT_HANDSHAKE {
        return Err("not a handshake");
    }
    let fragment = record.fragment;
    if fragment.len() == 0 || fragment[0] != HANDSHAKE_CLIENT_HELLO {
        return Err("handshake type isn't a client hello");
    }
    let body = match slice_by_at_range(fragment, 1..4) {
        Ok(body) => body,
        Err(e) => {
            return Err(e);
        },
    };
    if body.len() == 0 || body[0] != TLS_MAJOR {
        return Err("unsupported TLS version");
    }
    let after_session = match truncate_before(body, 34..35) {
        Ok(rest) => rest,
        Err(e) => {
            return Err(e);
        },
    };
    let after_suites = match truncate_before(after_session, 0..2) {
        Ok(rest) => rest,
        Err(e) => {
            return Err(e);
        },
    };
    let after_compression = match truncate_before(after_suites, 0..1) {
        Ok(rest) => rest,
        Err(e) => {
            return Err(e);
        },
    };
    let exts = match slice_by_at_range(after_compression, 0..2) {
        Ok(exts) => exts,
        Err(e) => {
            return Err(e);
        },
    };
    parse_extensions(exts)
}

/// A buffer that ends before the end of its record is rejected, wherever it
/// is cut: a record that parses no longer parses when only its first `n`
/// bytes are there.
pub proof fn lemma_truncated_record_is_rejected(data: Seq<u8>, n: int)
    requires
        tls_record(data) is Ok,
        0 <= n < 5 + tls_record(data)->Ok_0.fragment.len(),
    ensures
        tls_record(data.take(n)) is Err,
        client_hello_server_name(data.take(n)) is Err,
{
    if n >= 5 {
        assert(data.take(n).subrange(3, 5) =~= data.subrange(3, 5));
    }
}

/// A record whose content type is not handshake gives no ClientHello.
pub proof fn lemma_other_content_is_rejected(data: Seq<u8>)
    requires
        data.len() > 0 ==> data[0] != CONTENT_HANDSHAKE,
    ensures
        client_hello_server_name(data) is Err,
{
}

/// A handshake record whose message is not a ClientHello gives none.
pub proof fn lemma_other_handshake_is_rejected(data: Seq<u8>)
    requires
        tls_record(data) is Ok,
        tls_record(data)->Ok_0.fragment.len() > 0 ==> tls_record(data)->Ok_0.fragment[0]
            != HANDSHAKE_CLIENT_HELLO,
    ensures
        client_hello_server_name(data) is Err,
{
}

/// The `width` bytes that spell `value`, most significant first.
pub open spec fn be_bytes(value: nat, width: nat) -> Seq<u8>
    decreases width,
{
    if width == 0 {
        Seq::empty()
    } else {
        be_bytes(value / 256, (width - 1) as nat).push((value % 256) as u8)
    }
}

/// The least number that `width` bytes cannot spell.
pub open spec fn be_limit(width: nat) -> nat
    decreases width,
{
    if width == 0 {
        1
    } else {
        256 * be_limit((width - 1) as nat)
    }
}

/// A field as it stands in a record: the length of `body` in `width` bytes,
/// then `body`.
pub open spec fn field(width: nat, body: Seq<u8>) -> Seq<u8> {
    be_bytes(body.len(), width) + body
}

/// The bytes that spell a number spell that number.
pub proof fn lemma_be_round_trip(value: nat, width: nat)
    requires
        value < be_limit(width),
    ensures
        be_bytes(value, width).len() == width,
        be_value(be_bytes(value, width)) == value,
    decreases width,
{
    if width > 0 {
        lemma_be_round_trip(value / 256, (width - 1) as nat);
        assert(be_bytes(value, width).drop_last() =~= be_bytes(value / 256, (width - 1) as nat));
    }
}

/// A field that stands anywhere in a buffer is found behind its length, and
/// what follows it is what is left.
pub proof fn lemma_field_is_found(before: Seq<u8>, width: nat, body: Seq<u8>, after: Seq<u8>)
    requires
        body.len() < be_limit(width),
    ensures
        prefixed_field(
            before + field(width, body) + after,
            before.len() as int,
            (before.len() + width) as int,
        ) == Ok::<Seq<u8>, TlsError>(body),
        after_field(
            before + field(width, body) + after,
            before.len() as int,
            (before.len() + width) as int,
        ) == Ok::<Seq<u8>, TlsError>(after),
        field(width, body).len() == width + body.len(),
{
    let data = before + field(width, body) + after;
    let start = before.len() as int;
    let end = start + width;
    lemma_be_round_trip(body.len(), width);
    assert(data.subrange(start, end) =~= be_bytes(body.len(), width));
    assert(data.subrange(end, end + body.len()) =~= body);
    assert(data.skip(end + body.len()) =~= after);
}

/// The parts of a ClientHello that its layout is made of.
pub ghost struct ClientHello {
    /// The second byte of the record's version.
    pub record_minor: u8,
    /// The second byte of the ClientHello's own version.
    pub hello_minor: u8,
    /// The client's random bytes.
    pub random: Seq<u8>,
    pub session_id: Seq<u8>,
    pub cipher_suites: Seq<u8>,
    pub compression_methods: Seq<u8>,
    /// The extensions, one behind the other.
    pub extensions: Seq<u8>,
}

impl ClientHello {
    /// The ClientHello itself: the version, the random bytes, and session
    /// id, cipher suites, compression methods and extensions as fields.
    pub open spec fn body(self) -> Seq<u8> {
        seq![TLS_MAJOR, self.hello_minor] + self.random + field(1, self.session_id) + field(
            2,
            self.cipher_suites,
        ) + field(1, self.compression_methods) + field(2, self.extensions)
    }

    /// The handshake message that carries the ClientHello.
    pub open spec fn handshake(self) -> Seq<u8> {
        seq![HANDSHAKE_CLIENT_HELLO] + field(3, self.body())
    }

    /// The record that carries the handshake message.
    pub open spec fn record(self) -> Seq<u8> {
        seq![CONTENT_HANDSHAKE, TLS_MAJOR, self.record_minor] + field(2, self.handshake())
    }

    /// Every part has a length that its length field can hold, and there are
    /// 32 random bytes.
    pub open spec fn well_formed(self) -> bool {
        &&& self.random.len() == 32
        &&& self.session_id.len() < 256
        &&& self.cipher_suites.len() < 65536
        &&& self.compression_methods.len() < 256
        &&& self.extensions.len() < 65536
        &&& self.handshake().len() < 65536
    }
}

/// The record of a well-formed ClientHello is found at the start of the
/// buffer, and its handshake message in the record.
proof fn lemma_hello_record_is_found(hello: ClientHello, trailing: Seq<u8>)
    requires
        hello.well_formed(),
    ensures
        tls_record(hello.record() + trailing) == Ok::<TlsRecordView, TlsError>(
            TlsRecordView {
                content_type: CONTENT_HANDSHAKE,
                major_version: TLS_MAJOR,
                minor_version: hello.record_minor,
                fragment: hello.handshake(),
            },
        ),
        hello.handshake().len() > 0,
        hello.handshake()[0] == HANDSHAKE_CLIENT_HELLO,
        prefixed_field(hello.handshake(), 1, 4) == Ok::<Seq<u8>, TlsError>(hello.body()),
        hello.body().len() > 0,
        hello.body()[0] == TLS_MAJOR,
{
    reveal_with_fuel(be_limit, 4);
    let header = seq![CONTENT_HANDSHAKE, TLS_MAJOR, hello.record_minor];
    lemma_field_is_found(header, 2, hello.handshake(), trailing);
    lemma_field_is_found(seq![HANDSHAKE_CLIENT_HELLO], 3, hello.body(), Seq::empty());
}

/// Behind the version and the random bytes of a well-formed ClientHello,
/// the session id, the cipher suites and the compression methods are passed
/// over one after the other, and the extensions are found.
proof fn lemma_hello_fields_are_passed(hello: ClientHello)
    requires
        hello.well_formed(),
    ensures
        ({
            let suites = field(2, hello.cipher_suites);
            let compression = field(1, hello.compression_methods);
            let extensions = field(2, hello.extensions);
            &&& after_field(hello.body(), 34, 35) == Ok::<Seq<u8>, TlsError>(
                suites + compression + extensions,
            )
            &&& after_field(suites + compression + extensions, 0, 2) == Ok::<Seq<u8>, TlsError>(
                compression + extensions,
            )
            &&& after_field(compression + extensions, 0, 1) == Ok::<Seq<u8>, TlsError>(extensions)
            &&& prefixed_field(extensions, 0, 2) == Ok::<Seq<u8>, TlsError>(hello.extensions)
        }),
{
    reveal_with_fuel(be_limit, 3);
    let body = hello.body();
    let suites = field(2, hello.cipher_suites);
    let compression = field(1, hello.compression_methods);
    let extensions = field(2, hello.extensions);
    assert(after_field(body, 34, 35) == Ok::<Seq<u8>, TlsError>(suites + compression + extensions))
        by {
        let lead = seq![TLS_MAJOR, hello.hello_minor] + hello.random;
        lemma_field_is_found(lead, 1, hello.session_id, suites + compression + extensions);
        assert(body =~= lead + field(1, hello.session_id) + (suites + compression + extensions));
    }
    assert(after_field(suites + compression + extensions, 0, 2) == Ok::<Seq<u8>, TlsError>(
        compression + extensions,
    )) by {
        lemma_field_is_found(Seq::empty(), 2, hello.cipher_suites, compression + extensions);
        assert(suites + compression + extensions =~= Seq::<u8>::empty() + suites + (compression
            + extensions));
    }
    assert(after_field(compression + extensions, 0, 1) == Ok::<Seq<u8>, TlsError>(extensions)) by {
        lemma_field_is_found(Seq::empty(), 1, hello.compression_methods, extensions);
    }
    assert(prefixed_field(extensions, 0, 2) == Ok::<Seq<u8>, TlsError>(hello.extensions)) by {
        lemma_field_is_found(Seq::empty(), 2, hello.extensions, Seq::empty());
    }
}

/// The extension list of a well-formed ClientHello is found, whatever follows
/// the record in the buffer.
pub proof fn lemma_hello_extensions_are_found(hello: ClientHello, trailing: Seq<u8>)
    requires
        hello.well_formed(),
    ensures
        client_hello_extensions(hello.record() + trailing) == Ok::<Seq<u8>, TlsError>(
            hello.extensions,
        ),
{
    lemma_hello_record_is_found(hello, trailing);
    lemma_hello_fields_are_passed(hello);
}

/// One extension as it stands in the list: its type, then its body as a
/// field.
pub open spec fn extension(kind: (u8, u8), body: Seq<u8>) -> Seq<u8> {
    seq![kind.0, kind.1] + field(2, body)
}

/// The extension that indicates the host `name`: a list of one name, of the
/// type "host name".
pub open spec fn server_name_extension(name: Seq<u8>) -> Seq<u8> {
    extension((0, 0), be_bytes(name.len() + 3, 2) + seq![0u8] + field(2, name))
}

/// An extension that indicates a host makes that host the server name, and
/// the walk goes on behind it.
pub proof fn lemma_server_name_is_taken(
    host: Seq<char>,
    rest: Seq<u8>,
    found: Option<Seq<char>>,
)
    requires
        vstd::utf8::encode_utf8(host).len() + 5 < 65536,
    ensures
        extensions_server_name(server_name_extension(vstd::utf8::encode_utf8(host)) + rest, found)
            == extensions_server_name(rest, Some(host)),
{
    reveal_with_fuel(be_limit, 3);
    let name = vstd::utf8::encode_utf8(host);
    let list_len = be_bytes(name.len() + 3, 2);
    let body = list_len + seq![0u8] + field(2, name);
    lemma_be_round_trip(name.len() + 3, 2);
    lemma_field_is_found(list_len + seq![0u8], 2, name, Seq::empty());
    lemma_field_is_found(seq![0u8, 0u8], 2, body, rest);
    crate::names::lemma_decode_encoded_name(host);
}

/// An extension of another type is passed over.
pub proof fn lemma_other_extension_is_passed(
    kind: (u8, u8),
    body: Seq<u8>,
    rest: Seq<u8>,
    found: Option<Seq<char>>,
)
    requires
        kind != (0u8, 0u8),
        body.len() < 65536,
    ensures
        extensions_server_name(extension(kind, body) + rest, found) == extensions_server_name(
            rest,
            found,
        ),
{
    reveal_with_fuel(be_limit, 3);
    lemma_field_is_found(seq![kind.0, kind.1], 2, body, rest);
}

/// A well-formed ClientHello whose first extension indicates a host, and
/// whose other extensions indicate none, gives exactly that host, whatever
/// follows the record in the buffer.
pub proof fn lemma_hello_gives_its_server_name(
    hello: ClientHello,
    host: Seq<char>,
    others: Seq<u8>,
    trailing: Seq<u8>,
)
    requires
        hello.well_formed(),
        hello.extensions == server_name_extension(vstd::utf8::encode_utf8(host)) + others,
        extensions_server_name(others, Some(host)) == Ok::<Option<Seq<char>>, TlsError>(Some(host)),
    ensures
        client_hello_server_name(hello.record() + trailing) == Ok::<Option<Seq<char>>, TlsError>(
            Some(host),
        ),
{
    lemma_hello_extensions_are_found(hello, trailing);
    lemma_server_name_is_taken(host, others, None);
}

} // verus!
