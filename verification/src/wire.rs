use crate::error::FastStringError;
use vstd::prelude::*;

verus! {

/// The four bytes that stand for `value` on the wire: least significant byte
/// first, whatever the machine or the buffer.
pub open spec fn u32_bytes(value: u32) -> Seq<u8> {
    seq![
        (value % 256) as u8,
        (value / 256 % 256) as u8,
        (value / 65536 % 256) as u8,
        (value / 16777216) as u8,
    ]
}

/// The number that the first four bytes of `bytes` stand for.
pub open spec fn u32_of_bytes(bytes: Seq<u8>) -> int
    recommends
        bytes.len() >= 4,
{
    bytes[0] + 256 * bytes[1] + 65536 * bytes[2] + 16777216 * bytes[3]
}

/// The wire form of a string with the given content: the length in four
/// bytes, then the content itself. The capacity leaves no trace in it.
pub open spec fn wire_form(content: Seq<u8>) -> Seq<u8> {
    u32_bytes(content.len() as u32) + content
}

/// What decoding makes of `input` for a string of the given capacity.
///
/// The length is read first. A length above the capacity is refused before any
/// content is looked at; otherwise exactly that many bytes are the content.
/// The content is not examined: it need not be valid UTF-8.
pub open spec fn parse_frame(capacity: nat, input: Seq<u8>) -> Result<Seq<u8>, FastStringError> {
    if input.len() < 4 {
        Err(FastStringError::UnexpectedEof)
    } else if u32_of_bytes(input) > capacity {
        Err(FastStringError::CapacityExceeded)
    } else if input.len() - 4 < u32_of_bytes(input) {
        Err(FastStringError::UnexpectedEof)
    } else {
        Ok(input.subrange(4, 4 + u32_of_bytes(input)))
    }
}

/// The number of bytes of `input` that decoding consumes.
pub open spec fn parse_consumed(capacity: nat, input: Seq<u8>) -> int {
    if input.len() < 4 {
        0
    } else if u32_of_bytes(input) > capacity {
        4
    } else if input.len() - 4 < u32_of_bytes(input) {
        input.len() as int
    } else {
        4 + u32_of_bytes(input)
    }
}

/// Splits a number into its four wire bytes. Both encoders take the length
/// prefix from here.
pub fn u32_to_bytes(value: u32) -> (res: [u8; 4])
    ensures
        res@ == u32_bytes(value),
{
    let res = [
        (value % 256) as u8,
        (value / 256 % 256) as u8,
        (value / 65536 % 256) as u8,
        (value / 16777216) as u8,
    ];
    assert(res@ =~= u32_bytes(value));
    res
}

/// Puts a number together from its four wire bytes, the first four of `bytes`.
pub fn u32_from_bytes(bytes: &[u8]) -> (res: u32)
    requires
        bytes@.len() >= 4,
    ensures
        res == u32_of_bytes(bytes@),
{
    let b0 = bytes[0] as u32;
    let b1 = bytes[1] as u32;
    let b2 = bytes[2] as u32;
    let b3 = bytes[3] as u32;
    b0 + 256 * b1 + 65536 * b2 + 16777216 * b3
}

/// Reading back the four bytes of a number gives the number.
pub proof fn lemma_u32_bytes_round_trip(value: u32)
    ensures
        u32_bytes(value).len() == 4,
        u32_of_bytes(u32_bytes(value)) == value,
{
}

/// Decoding what was encoded gives the content back, whatever follows it in
/// the input, for every content that fits the capacity and whose length fits
/// the four-byte prefix.
pub proof fn lemma_decode_encode(capacity: nat, content: Seq<u8>, rest: Seq<u8>)
    requires
        content.len() <= capacity,
        content.len() <= u32::MAX,
    ensures
        parse_frame(capacity, wire_form(content) + rest) == Ok::<Seq<u8>, FastStringError>(
            content,
        ),
        parse_consumed(capacity, wire_form(content) + rest) == 4 + content.len(),
{
    let value = content.len() as u32;
    let input = wire_form(content) + rest;
    lemma_u32_bytes_round_trip(value);
    assert(input[0] == u32_bytes(value)[0]);
    assert(input[1] == u32_bytes(value)[1]);
    assert(input[2] == u32_bytes(value)[2]);
    assert(input[3] == u32_bytes(value)[3]);
    assert(u32_of_bytes(input) == content.len());
    assert(input.subrange(4, 4 + content.len() as int) =~= content);
}

/// The wire form is four bytes longer than the content, so it never takes more
/// than four bytes above the capacity.
pub proof fn lemma_wire_form_len(capacity: nat, content: Seq<u8>)
    requires
        content.len() <= capacity,
    ensures
        wire_form(content).len() == 4 + content.len(),
        wire_form(content).len() <= 4 + capacity,
{
}

/// A length prefix above the capacity is refused with `CapacityExceeded`,
/// whatever follows it, and only the prefix is consumed.
pub proof fn lemma_oversized_prefix_refused(capacity: nat, announced: u32, rest: Seq<u8>)
    requires
        announced > capacity,
    ensures
        parse_frame(capacity, u32_bytes(announced) + rest) == Err::<Seq<u8>, FastStringError>(
            FastStringError::CapacityExceeded,
        ),
        parse_consumed(capacity, u32_bytes(announced) + rest) == 4,
{
    let input = u32_bytes(announced) + rest;
    lemma_u32_bytes_round_trip(announced);
    assert(input[0] == u32_bytes(announced)[0]);
    assert(input[1] == u32_bytes(announced)[1]);
    assert(input[2] == u32_bytes(announced)[2]);
    assert(input[3] == u32_bytes(announced)[3]);
}

} // verus!
