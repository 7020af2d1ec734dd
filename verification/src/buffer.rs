use bytebuffer::{ByteBuffer, ByteReader};
use vstd::prelude::*;

verus! {

#[verifier::external_type_specification]
#[verifier::external_body]
pub struct ExByteBuffer(bytebuffer::ByteBuffer);

#[verifier::external_type_specification]
#[verifier::external_body]
pub struct ExByteReader<'a>(bytebuffer::ByteReader<'a>);

/// The bytes that a growable buffer holds, from its first to its last.
pub uninterp spec fn buffer_bytes(buf: ByteBuffer) -> Seq<u8>;

/// The index at which the next whole byte written to a growable buffer lands:
/// its write cursor, moved past a byte that was begun bit by bit.
pub uninterp spec fn buffer_write_pos(buf: ByteBuffer) -> nat;

/// The bytes that a reader reads from, from the first to the last.
pub uninterp spec fn reader_bytes(reader: ByteReader) -> Seq<u8>;

/// The index of the next whole byte that a reader hands out: its read cursor,
/// moved past a byte that was begun bit by bit. It may lie behind the last
/// byte.
pub uninterp spec fn reader_pos(reader: ByteReader) -> nat;

/// The bytes from index `pos` on; none where `pos` lies behind the last.
pub open spec fn unread(bytes: Seq<u8>, pos: nat) -> Seq<u8> {
    if pos <= bytes.len() {
        bytes.skip(pos as int)
    } else {
        Seq::empty()
    }
}

/// `data` after `bytes` were written into it from index `pos` on: what lay
/// there is replaced, and where `data` was too short it is first lengthened
/// with zeros.
pub open spec fn overwrite(data: Seq<u8>, pos: nat, bytes: Seq<u8>) -> Seq<u8> {
    Seq::new(
        if data.len() >= pos + bytes.len() {
            data.len()
        } else {
            pos + bytes.len()
        },
        |i: int|
            if pos <= i < pos + bytes.len() {
                bytes[i - pos]
            } else if i < data.len() {
                data[i]
            } else {
                0u8
            },
    )
}

/// `ByteBuffer::write_bytes`: `bytes` are written at the write position, which
/// moves behind them.
#[verifier::external_body]
pub(crate) fn buffer_write_bytes(buf: &mut ByteBuffer, bytes: &[u8])
    ensures
        buffer_bytes(*final(buf)) == overwrite(
            buffer_bytes(*old(buf)),
            buffer_write_pos(*old(buf)),
            bytes@,
        ),
        buffer_write_pos(*final(buf)) == buffer_write_pos(*old(buf)) + bytes@.len(),
{
    buf.write_bytes(bytes)
}

/// `ByteBuffer::as_bytes`: all the bytes that the buffer holds.
#[verifier::external_body]
pub(crate) fn buffer_as_bytes(buf: &ByteBuffer) -> (res: &[u8])
    ensures
        res@ == buffer_bytes(*buf),
{
    buf.as_bytes()
}

/// `ByteReader::from_bytes`: a reader over `bytes` that stands at their start.
#[verifier::external_body]
pub(crate) fn reader_from_bytes<'a>(bytes: &'a [u8]) -> (res: ByteReader<'a>)
    ensures
        reader_bytes(res) == bytes@,
        reader_pos(res) == 0,
{
    ByteReader::from_bytes(bytes)
}

/// `ByteReader::read_bytes`: where `size` bytes are left, those bytes, and the
/// reader moves behind them; where fewer are left, nothing, and the reader
/// stays. The size is bounded so that the reader's own sum of position and
/// size fits.
#[verifier::external_body]
pub(crate) fn reader_read_bytes(reader: &mut ByteReader, size: usize) -> (res: Option<Vec<u8>>)
    requires
        size <= isize::MAX,
    ensures
        reader_bytes(*final(reader)) == reader_bytes(*old(reader)),
        res is Some <==> reader_pos(*old(reader)) + size <= reader_bytes(*old(reader)).len(),
        res is Some ==> res.unwrap()@ == reader_bytes(*old(reader)).subrange(
            reader_pos(*old(reader)) as int,
            reader_pos(*old(reader)) + size,
        ),
        res is Some ==> reader_pos(*final(reader)) == reader_pos(*old(reader)) + size,
        res is None ==> reader_pos(*final(reader)) == reader_pos(*old(reader)),
{
    match reader.read_bytes(size) {
        Ok(bytes) => Some(bytes),
        Err(_) => None,
    }
}

/// `std::io::Read::read` of a `ByteReader`, into the first `count` bytes of
/// `dst`, for a reader that does not stand behind its last byte: as many bytes
/// as are left, `count` at most, are copied from the read position to the
/// start of `dst`, and the reader moves behind them. The call never fails, and
/// the rest of `dst` stays.
#[verifier::external_body]
pub(crate) fn reader_read<const N: usize>(
    reader: &mut ByteReader,
    dst: &mut [u8; N],
    count: usize,
) -> (res: Option<usize>)
    requires
        count <= N,
        reader_pos(*old(reader)) <= reader_bytes(*old(reader)).len(),
    ensures
        reader_bytes(*final(reader)) == reader_bytes(*old(reader)),
        res is Some,
        res.unwrap() == if count <= reader_bytes(*old(reader)).len() - reader_pos(*old(reader)) {
            count as int
        } else {
            reader_bytes(*old(reader)).len() - reader_pos(*old(reader))
        },
        reader_pos(*final(reader)) == reader_pos(*old(reader)) + res.unwrap(),
        final(dst)@ == reader_bytes(*old(reader)).subrange(
            reader_pos(*old(reader)) as int,
            reader_pos(*old(reader)) + res.unwrap(),
        ) + old(dst)@.skip(res.unwrap() as int),
{
    match std::io::Read::read(reader, &mut dst[..count]) {
        Ok(read) => Some(read),
        Err(_) => None,
    }
}

/// Two writes, one behind the other, are one write of both.
pub proof fn lemma_overwrite_twice(data: Seq<u8>, pos: nat, first: Seq<u8>, second: Seq<u8>)
    ensures
        overwrite(overwrite(data, pos, first), pos + first.len(), second) == overwrite(
            data,
            pos,
            first + second,
        ),
{
    assert(overwrite(overwrite(data, pos, first), pos + first.len(), second) =~= overwrite(
        data,
        pos,
        first + second,
    ));
}

/// A write at the end of the data appends.
pub proof fn lemma_overwrite_at_end(data: Seq<u8>, bytes: Seq<u8>)
    ensures
        overwrite(data, data.len(), bytes) == data + bytes,
{
    assert(overwrite(data, data.len(), bytes) =~= data + bytes);
}

} // verus!
