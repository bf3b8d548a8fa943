//! A concrete chunk of payload bytes, deferring the copy until the caller
//! wants it, whatever representation backs it: a borrowed slice, a shared
//! byte buffer or a mutable byte buffer.
//!
//! The shared and mutable buffers come from an outside byte-buffer crate;
//! their contents are specified here only through named views, and every
//! call into them goes through a trusted wrapper.

use vstd::prelude::*;
use vstd::slice::{slice_index_get, slice_subrange};

verus! {

#[verifier::external_type_specification]
#[verifier::external_body]
pub struct ExBytes(bytes::Bytes);

#[verifier::external_type_specification]
#[verifier::external_body]
pub struct ExBytesMut(bytes::BytesMut);

/// The byte contents of a shared byte buffer.
pub uninterp spec fn bytes_view(b: bytes::Bytes) -> Seq<u8>;

/// The byte contents of a mutable byte buffer.
pub uninterp spec fn bytes_mut_view(b: bytes::BytesMut) -> Seq<u8>;

/// Relies on Bytes::len: the number of bytes the buffer holds.
#[verifier::external_body]
fn bytes_len(b: &bytes::Bytes) -> (r: usize)
    ensures
        r == bytes_view(*b).len(),
{
    b.len()
}

/// Relies on Bytes::split_to: the first `at` bytes are returned and the
/// buffer keeps the rest; out of bounds panics, so `at` is bounded here.
#[verifier::external_body]
fn bytes_split_to(b: &mut bytes::Bytes, at: usize) -> (r: bytes::Bytes)
    requires
        at <= bytes_view(*old(b)).len(),
    ensures
        bytes_view(r) == bytes_view(*old(b)).take(at as int),
        bytes_view(*final(b)) == bytes_view(*old(b)).skip(at as int),
{
    b.split_to(at)
}

/// Relies on Bytes's deref to a byte slice: the buffer's contents.
#[verifier::external_body]
fn bytes_as_slice(b: &bytes::Bytes) -> (r: &[u8])
    ensures
        r@ == bytes_view(*b),
{
    b
}

/// Relies on BytesMut::len: the number of bytes the buffer holds.
#[verifier::external_body]
fn bytes_mut_len(b: &bytes::BytesMut) -> (r: usize)
    ensures
        r == bytes_mut_view(*b).len(),
{
    b.len()
}

/// Relies on BytesMut::split_to: the first `at` bytes are returned and the
/// buffer keeps the rest; out of bounds panics, so `at` is bounded here.
#[verifier::external_body]
fn bytes_mut_split_to(b: &mut bytes::BytesMut, at: usize) -> (r: bytes::BytesMut)
    requires
        at <= bytes_mut_view(*old(b)).len(),
    ensures
        bytes_mut_view(r) == bytes_mut_view(*old(b)).take(at as int),
        bytes_mut_view(*final(b)) == bytes_mut_view(*old(b)).skip(at as int),
{
    b.split_to(at)
}

/// Relies on BytesMut's deref to a byte slice: the buffer's contents.
#[verifier::external_body]
fn bytes_mut_as_slice(b: &bytes::BytesMut) -> (r: &[u8])
    ensures
        r@ == bytes_mut_view(*b),
{
    b
}

/// Concrete chunk of bytes.
///
/// This can be returned to allow the caller to defer copying the data until
/// later.
#[must_use]
pub enum Chunk<'a> {
    Slice(&'a [u8]),
    Bytes(bytes::Bytes),
    BytesMut(bytes::BytesMut),
}

/// A bounded byte sink: bytes are appended until a fixed limit is reached.
pub struct WriteBuffer {
    pub buf: Vec<u8>,
    /// The most bytes the sink will ever hold.
    pub limit: usize,
}

impl WriteBuffer {
    pub open spec fn spec_wf(self) -> bool {
        self.buf@.len() <= self.limit
    }

    /// An empty sink that accepts up to `limit` bytes.
    pub fn new(limit: usize) -> (r: WriteBuffer)
        ensures
            r.spec_wf(),
            r.buf@ =~= Seq::<u8>::empty(),
            r.limit == limit,
    {
        WriteBuffer { buf: Vec::new(), limit }
    }

    /// How many more bytes fit.
    pub fn remaining_capacity(&self) -> (r: usize)
        requires
            self.spec_wf(),
        ensures
            r == self.limit - self.buf@.len(),
    {
        self.limit - self.buf.len()
    }

    /// Append a whole slice that fits.
    pub fn append_slice(&mut self, src: &[u8])
        requires
            old(self).spec_wf(),
            old(self).buf@.len() + src@.len() <= old(self).limit,
        ensures
            final(self).spec_wf(),
            final(self).limit == old(self).limit,
            final(self).buf@ =~= old(self).buf@ + src@,
    {
        let n = src.len();
        let mut i: usize = 0;
        while i < n
            invariant
                n == src@.len(),
                i <= n,
                self.limit == old(self).limit,
                self.buf@ =~= old(self).buf@ + src@.take(i as int),
            decreases n - i,
        {
            let b = *slice_index_get(src, i);
            self.buf.push(b);
            proof {
                assert(self.buf@ =~= old(self).buf@ + src@.take(i + 1));
            }
            i += 1;
        }
        proof {
            assert(src@.take(n as int) =~= src@);
        }
    }
}

impl<'a> Chunk<'a> {
    /// The bytes the chunk holds, whatever backs it.
    pub open spec fn spec_bytes(self) -> Seq<u8> {
        match self {
            Chunk::Slice(s) => s@,
            Chunk::Bytes(b) => bytes_view(b),
            Chunk::BytesMut(b) => bytes_mut_view(b),
        }
    }

    /// The empty chunk.
    pub fn empty() -> (r: Self)
        ensures
            r.spec_bytes() =~= Seq::<u8>::empty(),
    {
        let s: &[u8] = &[];
        Chunk::Slice(s)
    }

    /// How many bytes are buffered in the chunk.
    pub fn buffered_len(&self) -> (r: usize)
        ensures
            r == self.spec_bytes().len(),
    {
        match self {
            Chunk::Slice(s) => s.len(),
            Chunk::Bytes(b) => bytes_len(b),
            Chunk::BytesMut(b) => bytes_mut_len(b),
        }
    }

    /// The chunk's bytes as a slice.
    pub fn as_slice(&self) -> (r: &[u8])
        ensures
            r@ == self.spec_bytes(),
    {
        match self {
            Chunk::Slice(s) => s,
            Chunk::Bytes(b) => bytes_as_slice(b),
            Chunk::BytesMut(b) => bytes_mut_as_slice(b),
        }
    }

    /// Split off and return the first `min(watermark, len)` buffered bytes;
    /// the chunk keeps the rest.
    pub fn read_chunk(&mut self, watermark: usize) -> (r: Chunk<'a>)
        ensures
            ({
                let n = vstd::math::min(watermark as int, old(self).spec_bytes().len() as int);
                &&& r.spec_bytes() == old(self).spec_bytes().take(n)
                &&& final(self).spec_bytes() == old(self).spec_bytes().skip(n)
            }),
    {
        let len = self.buffered_len();
        let n = if watermark < len {
            watermark
        } else {
            len
        };
        match self {
            Chunk::Slice(s) => {
                let head = slice_subrange(s, 0, n);
                let tail = slice_subrange(s, n, len);
                proof {
                    assert(head@ =~= s@.take(n as int));
                    assert(tail@ =~= s@.skip(n as int));
                }
                *self = Chunk::Slice(tail);
                Chunk::Slice(head)
            },
            Chunk::Bytes(b) => {
                let head = bytes_split_to(b, n);
                Chunk::Bytes(head)
            },
            Chunk::BytesMut(b) => {
                let head = bytes_mut_split_to(b, n);
                Chunk::BytesMut(head)
            },
        }
    }

    /// Copy as many buffered bytes as fit into the sink; the copied bytes
    /// leave the chunk. Nothing is dropped: what does not fit stays buffered.
    pub fn copy_into(&mut self, dest: &mut WriteBuffer)
        requires
            old(dest).spec_wf(),
        ensures
            final(dest).spec_wf(),
            final(dest).limit == old(dest).limit,
            ({
                let n = vstd::math::min(
                    old(self).spec_bytes().len() as int,
                    old(dest).limit - old(dest).buf@.len(),
                );
                &&& final(dest).buf@ =~= old(dest).buf@ + old(self).spec_bytes().take(n)
                &&& final(self).spec_bytes() == old(self).spec_bytes().skip(n)
            }),
    {
        let chunk = self.read_chunk(dest.remaining_capacity());
        let src = chunk.as_slice();
        dest.append_slice(src);
    }

    /// Split off what would fit into the sink and return it without copying,
    /// so the caller may defer the copy; the sink is untouched.
    pub fn partial_copy_into(&mut self, dest: &WriteBuffer) -> (r: Chunk<'a>)
        requires
            dest.spec_wf(),
        ensures
            ({
                let n = vstd::math::min(
                    old(self).spec_bytes().len() as int,
                    dest.limit - dest.buf@.len(),
                );
                &&& r.spec_bytes() == old(self).spec_bytes().take(n)
                &&& final(self).spec_bytes() == old(self).spec_bytes().skip(n)
            }),
    {
        self.read_chunk(dest.remaining_capacity())
    }
}

impl Default for Chunk<'_> {
    /// The empty chunk.
    fn default() -> (r: Self)
        ensures
            r.spec_bytes() =~= Seq::<u8>::empty(),
    {
        Chunk::empty()
    }
}

impl<'a> From<&'a [u8]> for Chunk<'a> {
    fn from(chunk: &'a [u8]) -> (r: Self)
        ensures
            r == Chunk::Slice(chunk),
    {
        Chunk::Slice(chunk)
    }
}

impl<'a> vstd::std_specs::convert::FromSpecImpl<&'a [u8]> for Chunk<'a> {
    open spec fn obeys_from_spec() -> bool {
        true
    }

    open spec fn from_spec(v: &'a [u8]) -> Self {
        Chunk::Slice(v)
    }
}

impl From<bytes::Bytes> for Chunk<'_> {
    fn from(chunk: bytes::Bytes) -> (r: Self)
        ensures
            r == Chunk::Bytes(chunk),
    {
        Chunk::Bytes(chunk)
    }
}

impl vstd::std_specs::convert::FromSpecImpl<bytes::Bytes> for Chunk<'_> {
    open spec fn obeys_from_spec() -> bool {
        true
    }

    open spec fn from_spec(v: bytes::Bytes) -> Self {
        Chunk::Bytes(v)
    }
}

impl From<bytes::BytesMut> for Chunk<'_> {
    fn from(chunk: bytes::BytesMut) -> (r: Self)
        ensures
            r == Chunk::BytesMut(chunk),
    {
        Chunk::BytesMut(chunk)
    }
}

impl vstd::std_specs::convert::FromSpecImpl<bytes::BytesMut> for Chunk<'_> {
    open spec fn obeys_from_spec() -> bool {
        true
    }

    open spec fn from_spec(v: bytes::BytesMut) -> Self {
        Chunk::BytesMut(v)
    }
}

} // verus!
