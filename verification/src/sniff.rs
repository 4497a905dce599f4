//! The buffer for the first look at a redirected connection: a short read
//! before anything is sent upstream, whose bytes are kept and handed on.

use bytes::{Bytes, BytesMut};
use vstd::prelude::*;

verus! {

/// How long the first look waits for bytes, in milliseconds.
pub const PEEK_TIMEOUT_MS: u64 = 500;

/// How many bytes the first look reads at most.
pub const PEEK_LEN: usize = 2048;

/// `bytes::BytesMut`, a buffer of bytes that can grow and shrink. Nothing is
/// known of a value but what the functions below say.
#[verifier::external_type_specification]
#[verifier::external_body]
pub struct ExBytesMut(BytesMut);

/// `bytes::Bytes`, a buffer of bytes that no longer changes. Nothing is known
/// of a value but what the functions below say.
#[verifier::external_type_specification]
#[verifier::external_body]
pub struct ExBytes(Bytes);

/// The bytes that a `BytesMut` holds, from its first to its last.
pub uninterp spec fn mut_contents(buf: &BytesMut) -> Seq<u8>;

/// The bytes that a `Bytes` holds, from its first to its last.
pub uninterp spec fn contents(buf: &Bytes) -> Seq<u8>;

/// `BytesMut::with_capacity`: the new buffer holds no bytes, whatever its
/// capacity.
#[verifier::external_body]
fn with_capacity(capacity: usize) -> (buf: BytesMut)
    requires
        capacity <= isize::MAX,
    ensures
        mut_contents(&buf) == Seq::<u8>::empty(),
{
    BytesMut::with_capacity(capacity)
}

/// `BytesMut::resize`: a shorter length cuts the buffer, a longer one fills
/// it up with `value`.
#[verifier::external_body]
fn resize(buf: &mut BytesMut, new_len: usize, value: u8)
    requires
        new_len <= isize::MAX,
    ensures
        new_len <= mut_contents(old(buf)).len() ==> mut_contents(final(buf)) == mut_contents(
            old(buf),
        ).take(new_len as int),
        new_len > mut_contents(old(buf)).len() ==> mut_contents(final(buf)) == mut_contents(
            old(buf),
        ) + Seq::new((new_len - mut_contents(old(buf)).len()) as nat, |i: int| value),
{
    buf.resize(new_len, value)
}

/// `BytesMut::truncate`: the first `len` bytes stay; a `len` beyond the end
/// changes nothing.
#[verifier::external_body]
fn truncate(buf: &mut BytesMut, len: usize)
    ensures
        len <= mut_contents(old(buf)).len() ==> mut_contents(final(buf)) == mut_contents(
            old(buf),
        ).take(len as int),
        len > mut_contents(old(buf)).len() ==> mut_contents(final(buf)) == mut_contents(old(buf)),
{
    buf.truncate(len)
}

/// `BytesMut::freeze`: the same bytes, from now on immutable.
#[verifier::external_body]
fn freeze(buf: BytesMut) -> (frozen: Bytes)
    ensures
        contents(&frozen) == mut_contents(&buf),
{
    buf.freeze()
}

/// `Bytes` as a slice, through its `AsRef<[u8]>`: the bytes it holds.
#[verifier::external_body]
pub(crate) fn as_slice(buf: &Bytes) -> (slice: &[u8])
    ensures
        slice@ == contents(buf),
{
    buf.as_ref()
}

/// The buffer that the first look reads into: `PEEK_LEN` zero bytes.
pub fn peek_buffer() -> (buf: BytesMut)
    ensures
        mut_contents(&buf) == Seq::new(PEEK_LEN as nat, |i: int| 0u8),
{
    let mut buf = with_capacity(PEEK_LEN);
    resize(&mut buf, PEEK_LEN, 0);
    buf
}

/// What is kept of a buffer into which `len` bytes were read.
pub open spec fn read_part(buf: Seq<u8>, len: int) -> Seq<u8> {
    if 0 <= len <= buf.len() {
        buf.take(len)
    } else {
        buf
    }
}

/// Keeps the `len` bytes that were read into `buf` and drops the rest, so
/// that none of the bytes the buffer was filled with at first is ever sent.
pub fn keep_read(buf: BytesMut, len: usize) -> (kept: Bytes)
    ensures
        contents(&kept) == read_part(mut_contents(&buf), len as int),
{
    let mut buf = buf;
    truncate(&mut buf, len);
    freeze(buf)
}

} // verus!
