//! Framing of the daemon's IPC stream: each message is its length as a
//! 4-byte big-endian integer followed by that many bytes of JSON.
use vstd::prelude::*;

use crate::seqs::copy_range;
use crate::wire::{be32, get_be32, lemma_le32_roundtrip, read_be32, u32_to_be};

verus! {

#[verifier::external_type_specification]
#[verifier::external_body]
pub struct ExBytesMut(bytes::BytesMut);

/// The bytes held by a `BytesMut` buffer.
pub uninterp spec fn bytes_mut_contents(b: bytes::BytesMut) -> Seq<u8>;

/// Calls `BytesMut::with_capacity`, which makes an empty buffer.
#[verifier::external_body]
fn bytes_with_capacity(capacity: usize) -> (b: bytes::BytesMut)
    ensures
        bytes_mut_contents(b) == Seq::<u8>::empty(),
{
    bytes::BytesMut::with_capacity(capacity)
}

/// Calls `BytesMut::extend_from_slice`, which appends `data`. It panics when
/// the new length overflows, which `requires` rules out.
#[verifier::external_body]
fn bytes_extend(b: &mut bytes::BytesMut, data: &[u8])
    requires
        bytes_mut_contents(*old(b)).len() + data@.len() <= isize::MAX,
    ensures
        bytes_mut_contents(*final(b)) == bytes_mut_contents(*old(b)) + data@,
{
    b.extend_from_slice(data)
}

/// Copies the bytes of a `BytesMut` (through its `Deref` to `[u8]`) into a
/// vector.
#[verifier::external_body]
fn bytes_to_vec(b: &bytes::BytesMut) -> (v: Vec<u8>)
    ensures
        v@ == bytes_mut_contents(*b),
{
    b.as_ref().to_vec()
}

/// The frame carrying `data`: its length (truncated to 32 bits) big-endian,
/// then the bytes.
pub open spec fn frame(data: Seq<u8>) -> Seq<u8> {
    be32(data.len() as u32) + data
}

/// Build the frame that carries `data` on the IPC stream.
pub fn encode_frame(data: &[u8]) -> (out: Vec<u8>)
    requires
        data@.len() + 4 <= isize::MAX,
    ensures
        out@ == frame(data@),
{
    let mut buf = bytes_with_capacity(4 + data.len());
    let len = u32_to_be(data.len() as u32);
    bytes_extend(&mut buf, len.as_slice());
    bytes_extend(&mut buf, data);
    bytes_to_vec(&buf)
}

/// The payload length announced by a frame header.
pub fn frame_payload_len(header: &[u8; 4]) -> (n: usize)
    ensures
        n == read_be32(header@, 0),
{
    get_be32(header.as_slice(), 0) as usize
}

/// The payload of the frame at the start of `buf`, or `None` when `buf`
/// does not yet hold a whole frame.
pub open spec fn frame_payload(buf: Seq<u8>) -> Option<Seq<u8>> {
    if buf.len() < 4 || buf.len() < 4 + read_be32(buf, 0) {
        None
    } else {
        Some(buf.subrange(4, 4 + read_be32(buf, 0)))
    }
}

/// Read the frame at the start of `buf`.
pub fn decode_frame(buf: &[u8]) -> (payload: Option<Vec<u8>>)
    ensures
        match payload {
            Some(p) => frame_payload(buf@) == Some(p@),
            None => frame_payload(buf@) is None,
        },
{
    if buf.len() < 4 {
        return None;
    }
    let len = get_be32(buf, 0) as usize;
    if buf.len() - 4 < len {
        return None;
    }
    Some(copy_range(buf, 4, 4 + len))
}

/// Reading back a frame gives the payload it was built from, whatever
/// follows it in the stream; the frame takes exactly its 4 header bytes and
/// the payload, so what follows starts right after it.
pub proof fn lemma_frame_roundtrip(data: Seq<u8>, rest: Seq<u8>)
    requires
        data.len() <= u32::MAX,
    ensures
        frame_payload(frame(data) + rest) == Some(data),
        read_be32(frame(data) + rest, 0) == data.len(),
        (frame(data) + rest).skip(4 + data.len() as int) == rest,
{
    let b = frame(data) + rest;
    lemma_le32_roundtrip(data.len() as u32);
    assert(b.subrange(0, 4) =~= be32(data.len() as u32));
    assert(read_be32(b, 0) == read_be32(be32(data.len() as u32), 0));
    assert(b.subrange(4, 4 + data.len() as int) =~= data);
    assert(b.skip(4 + data.len() as int) =~= rest);
}

} // verus!
