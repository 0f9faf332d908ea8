//! The byte containers of the `bytes` crate, as the rest of the library sees
//! them.
//!
//! `Bytes` is the chunk a body hands out, `BytesMut` the buffer a body is
//! gathered in. Verus cannot look inside either, so each gets a name for the
//! bytes it holds, and every operation the library uses is described over
//! those names. Nothing in this file is proved: the contracts restate what the
//! `bytes` crate does.

use vstd::prelude::*;

verus! {

/// `bytes::Bytes`, a chunk of bytes that is never changed once made.
#[verifier::external_type_specification]
#[verifier::external_body]
pub struct ExBytes(bytes::Bytes);

/// `bytes::BytesMut`, a buffer of bytes that grows at its end.
#[verifier::external_type_specification]
#[verifier::external_body]
pub struct ExBytesMut(bytes::BytesMut);

/// The bytes that a chunk holds, first to last.
pub uninterp spec fn chunk_bytes(chunk: bytes::Bytes) -> Seq<u8>;

/// The bytes that a buffer holds, first to last. What the buffer has
/// allocated beyond them is not part of the model.
pub uninterp spec fn buffer_bytes(buffer: bytes::BytesMut) -> Seq<u8>;

/// `BytesMut::new`: a buffer that holds nothing.
pub assume_specification[ bytes::BytesMut::new ]() -> (buffer: bytes::BytesMut)
    ensures
        buffer_bytes(buffer) == Seq::<u8>::empty(),
;

/// `BytesMut::with_capacity`: a buffer that holds nothing, whatever room it
/// was given. It panics where more than `isize::MAX` bytes are asked for, so
/// such requests are left out. (Room that the allocator cannot give ends the
/// process, as with every allocation; the contract does not speak of that.)
pub assume_specification[ bytes::BytesMut::with_capacity ](capacity: usize) -> (buffer:
    bytes::BytesMut)
    requires
        capacity <= isize::MAX,
    ensures
        buffer_bytes(buffer) == Seq::<u8>::empty(),
;

/// `BytesMut::len`: the number of bytes held.
pub assume_specification[ bytes::BytesMut::len ](buffer: &bytes::BytesMut) -> (len: usize)
    ensures
        len == buffer_bytes(*buffer).len(),
;

/// `BytesMut::extend_from_slice`: the slice is copied behind what the buffer
/// already holds. Where the room does not suffice the buffer is grown by
/// `Vec::reserve`, which asks for the new total or for twice the present
/// room, whichever is more, and panics where that passes `isize::MAX` bytes.
/// The new total is therefore kept within half of `isize::MAX`: room that
/// does not suffice is smaller than the total, so neither figure can pass.
pub assume_specification[ bytes::BytesMut::extend_from_slice ](
    buffer: &mut bytes::BytesMut,
    extend: &[u8],
)
    requires
        buffer_bytes(*old(buffer)).len() + extend@.len() <= isize::MAX / 2,
    ensures
        buffer_bytes(*final(buffer)) == buffer_bytes(*old(buffer)) + extend@,
;

/// `AsRef<[u8]>` of `BytesMut`: the held bytes as a slice.
#[verifier::external_body]
pub(crate) fn buffer_slice(buffer: &bytes::BytesMut) -> (bytes: &[u8])
    ensures
        bytes@ == buffer_bytes(*buffer),
{
    buffer.as_ref()
}

/// `AsRef<[u8]>` of `Bytes`: the held bytes as a slice.
#[verifier::external_body]
pub(crate) fn chunk_slice(chunk: &bytes::Bytes) -> (bytes: &[u8])
    ensures
        bytes@ == chunk_bytes(*chunk),
{
    chunk.as_ref()
}

/// `Bytes::from(String)`: a chunk that holds the string's UTF-8 bytes.
#[verifier::external_body]
pub(crate) fn chunk_from_string(text: String) -> (chunk: bytes::Bytes)
    ensures
        chunk_bytes(chunk) == vstd::utf8::encode_utf8(text@),
{
    bytes::Bytes::from(text)
}

} // verus!
