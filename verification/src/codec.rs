use crate::buffer::{
    buffer_as_bytes, buffer_bytes, buffer_write_bytes, buffer_write_pos, lemma_overwrite_at_end,
    lemma_overwrite_twice, overwrite, reader_bytes, reader_from_bytes, reader_pos, reader_read,
    reader_read_bytes, unread,
};
use crate::error::FastStringError;
use crate::fast_buffer::FastByteBuffer;
use crate::fast_string::{text_of, yields, FastString};
use crate::wire::{
    lemma_decode_encode, parse_consumed, parse_frame, u32_bytes, u32_from_bytes, u32_of_bytes,
    u32_to_bytes, wire_form,
};
use bytebuffer::{ByteBuffer, ByteReader};
use vstd::prelude::*;
use vstd::utf8::valid_utf8;

verus! {

impl<const N: usize> FastString<N> {
    /// The largest number of bytes that the wire form of a string of this
    /// type takes.
    pub fn encoded_size() -> (res: usize)
        requires
            N + 4 <= usize::MAX,
        ensures
            res == N + 4,
    {
        N + 4
    }

    /// The length prefix of the wire form.
    fn length_prefix(&self) -> (res: [u8; 4])
        ensures
            res@ == u32_bytes(self@.len() as u32),
    {
        u32_to_bytes(#[verifier::truncate] (self.len() as u32))
    }

    /// Writes the wire form into a growable buffer, at its write position.
    /// The byte order that the buffer is set to plays no part.
    pub fn encode(&self, buf: &mut ByteBuffer)
        ensures
            buffer_bytes(*final(buf)) == overwrite(
                buffer_bytes(*old(buf)),
                buffer_write_pos(*old(buf)),
                wire_form(self@),
            ),
            buffer_write_pos(*final(buf)) == buffer_write_pos(*old(buf)) + 4 + self@.len(),
    {
        let prefix = self.length_prefix();
        buffer_write_bytes(buf, prefix.as_slice());
        buffer_write_bytes(buf, self.as_bytes());
        proof {
            lemma_overwrite_twice(
                buffer_bytes(*old(buf)),
                buffer_write_pos(*old(buf)),
                prefix@,
                self@,
            );
        }
    }

    /// Appends the wire form to a writer of fixed size, which must have room
    /// for it.
    pub fn encode_fast(&self, buf: &mut FastByteBuffer)
        requires
            old(buf)@.len() + 4 + self@.len() <= old(buf).spec_capacity(),
        ensures
            final(buf)@ == old(buf)@ + wire_form(self@),
            final(buf).spec_capacity() == old(buf).spec_capacity(),
    {
        let prefix = self.length_prefix();
        buf.write_bytes(prefix.as_slice());
        buf.write_bytes(self.as_bytes());
        assert(buf@ =~= old(buf)@ + wire_form(self@));
    }

    /// Decodes a string from the start of the bytes that a growable buffer
    /// holds. The buffer is left as it was.
    pub fn decode(buf: &mut ByteBuffer) -> (res: Result<Self, FastStringError>)
        ensures
            yields(res, parse_frame(N as nat, buffer_bytes(*old(buf)))),
            *final(buf) == *old(buf),
    {
        let mut reader = reader_from_bytes(buffer_as_bytes(buf));
        assert(reader_bytes(reader).skip(0) =~= reader_bytes(reader));
        Self::decode_from_reader(&mut reader)
    }

    /// Decodes a string from what a reader has left and moves the reader
    /// behind what was consumed. The byte order that the reader is set to
    /// plays no part.
    ///
    /// The content is stored as it comes: whether it is valid UTF-8 shows only
    /// when it is read as text.
    pub fn decode_from_reader(buf: &mut ByteReader) -> (res: Result<Self, FastStringError>)
        ensures
            yields(
                res,
                parse_frame(N as nat, unread(reader_bytes(*old(buf)), reader_pos(*old(buf)))),
            ),
            reader_pos(*final(buf)) == reader_pos(*old(buf)) + parse_consumed(
                N as nat,
                unread(reader_bytes(*old(buf)), reader_pos(*old(buf))),
            ),
            reader_bytes(*final(buf)) == reader_bytes(*old(buf)),
    {
        let ghost bytes = reader_bytes(*buf);
        let ghost pos = reader_pos(*buf) as int;
        let prefix = match reader_read_bytes(buf, 4) {
            Some(prefix) => prefix,
            None => {
                return Err(FastStringError::UnexpectedEof);
            },
        };
        let len = u32_from_bytes(prefix.as_slice()) as usize;
        assert(u32_of_bytes(prefix@) == u32_of_bytes(bytes.skip(pos)));
        if len > N {
            return Err(FastStringError::CapacityExceeded);
        }
        let mut buffer = [0u8; N];
        let read = match reader_read(buf, &mut buffer, len) {
            Some(count) => count,
            None => {
                return Err(FastStringError::UnexpectedEof);
            },
        };
        if read < len {
            return Err(FastStringError::UnexpectedEof);
        }
        assert(buffer@.take(len as int) =~= bytes.skip(pos).subrange(4, 4 + len));
        Ok(Self::from_buffer(buffer, len))
    }
}

/// Decoding undoes both encoders: what `encode` writes into an empty growable
/// buffer and what `encode_fast` appends to an empty writer is the wire form,
/// and decoding the wire form gives the content back.
pub proof fn lemma_decode_after_encode(capacity: nat, content: Seq<u8>)
    requires
        content.len() <= capacity,
        content.len() <= u32::MAX,
    ensures
        overwrite(Seq::empty(), 0, wire_form(content)) == wire_form(content),
        Seq::<u8>::empty() + wire_form(content) == wire_form(content),
        parse_frame(capacity, wire_form(content)) == Ok::<Seq<u8>, FastStringError>(content),
        parse_frame(capacity, unread(wire_form(content), 0)) == Ok::<Seq<u8>, FastStringError>(
            content,
        ),
{
    lemma_overwrite_at_end(Seq::empty(), wire_form(content));
    lemma_decode_encode(capacity, content, Seq::empty());
    assert(Seq::<u8>::empty() + wire_form(content) =~= wire_form(content));
    assert(wire_form(content) + Seq::<u8>::empty() =~= wire_form(content));
    assert(unread(wire_form(content), 0) =~= wire_form(content));
}

/// Decoding does not look at the content: bytes that are not valid UTF-8 are
/// decoded like any others, and only reading them as text fails, with
/// `MalformedText`.
pub proof fn lemma_text_check_is_deferred(capacity: nat, content: Seq<u8>, rest: Seq<u8>)
    requires
        content.len() <= capacity,
        content.len() <= u32::MAX,
        !valid_utf8(content),
    ensures
        parse_frame(capacity, wire_form(content) + rest) == Ok::<Seq<u8>, FastStringError>(
            content,
        ),
        text_of(content) == Err::<Seq<char>, FastStringError>(FastStringError::MalformedText),
{
    lemma_decode_encode(capacity, content, rest);
}

/// Both encoders write the same bytes: into a growable buffer that stands at
/// the end of its bytes, `encode` appends what `encode_fast` appends to its
/// writer.
pub proof fn lemma_encoders_agree(data: Seq<u8>, content: Seq<u8>)
    ensures
        overwrite(data, data.len(), wire_form(content)) == data + wire_form(content),
{
    lemma_overwrite_at_end(data, wire_form(content));
}

/// Both decoders agree: a reader over the bytes of a buffer, at their start,
/// has all of them left.
pub proof fn lemma_decoders_agree(capacity: nat, bytes: Seq<u8>)
    ensures
        parse_frame(capacity, unread(bytes, 0)) == parse_frame(capacity, bytes),
{
    assert(unread(bytes, 0) =~= bytes);
}

} // verus!
