use bytebuffer::{ByteBuffer, ByteReader, Endian};
use fast_string::{FastByteBuffer, FastString, FastStringError};

#[test]
fn hello_encodes_with_length_prefix() {
    let s = FastString::<10>::from_str("hello");
    let mut buf = ByteBuffer::new();
    s.encode(&mut buf);
    assert_eq!(buf.as_bytes(), &[0x05, 0x00, 0x00, 0x00, 0x68, 0x65, 0x6C, 0x6C, 0x6F]);
    assert_eq!(buf.get_wpos(), 9);

    let back = FastString::<10>::decode(&mut buf).unwrap();
    assert_eq!(back.len(), 5);
    assert_eq!(back.to_str(), Ok("hello"));

    let mut reader = ByteReader::from_bytes(buf.as_bytes());
    let back = FastString::<10>::decode_from_reader(&mut reader).unwrap();
    assert_eq!(back.len(), 5);
    assert_eq!(back.to_str(), Ok("hello"));
    assert_eq!(reader.get_rpos(), 9);
}

#[test]
fn hello_decodes_from_its_wire_bytes() {
    let mut buf =
        ByteBuffer::from_bytes(&[0x05, 0x00, 0x00, 0x00, 0x68, 0x65, 0x6C, 0x6C, 0x6F]);
    let s = FastString::<10>::decode(&mut buf).unwrap();
    assert_eq!(s.len(), 5);
    assert_eq!(s.to_str(), Ok("hello"));
}

#[test]
fn encode_ignores_the_byte_order_of_the_buffer() {
    let s = FastString::<10>::from_str("hello");
    let expected = [0x05, 0x00, 0x00, 0x00, 0x68, 0x65, 0x6C, 0x6C, 0x6F];
    let mut little = ByteBuffer::new();
    little.set_endian(Endian::LittleEndian);
    s.encode(&mut little);
    assert_eq!(little.as_bytes(), &expected);
    let mut big = ByteBuffer::new();
    big.set_endian(Endian::BigEndian);
    s.encode(&mut big);
    assert_eq!(big.as_bytes(), &expected);
    assert!(big.endian() == Endian::BigEndian);
}

#[test]
fn decode_ignores_the_byte_order_of_the_source() {
    let data = [1, 0, 0, 0, 7];
    let mut little = ByteReader::from_bytes(&data);
    little.set_endian(Endian::LittleEndian);
    let mut big = ByteReader::from_bytes(&data);
    big.set_endian(Endian::BigEndian);
    let a = FastString::<4>::decode_from_reader(&mut little).unwrap();
    let b = FastString::<4>::decode_from_reader(&mut big).unwrap();
    assert_eq!(a.as_bytes(), &[7]);
    assert_eq!(b.as_bytes(), &[7]);
    let mut buf = ByteBuffer::from_bytes(&data);
    buf.set_endian(Endian::LittleEndian);
    let c = FastString::<4>::decode(&mut buf).unwrap();
    assert_eq!(c.as_bytes(), &[7]);
}

#[test]
fn encode_of_a_long_string_splits_the_length() {
    let data = [7u8; 300];
    let s = FastString::<300>::from_slice(&data);
    let mut buf = ByteBuffer::new();
    s.encode(&mut buf);
    assert_eq!(&buf.as_bytes()[..4], &[0x2C, 0x01, 0x00, 0x00]);
    assert_eq!(&buf.as_bytes()[4..], &data);
    let mut fast = FastByteBuffer::new(304);
    s.encode_fast(&mut fast);
    assert_eq!(fast.as_bytes(), buf.as_bytes());
    let back = FastString::<300>::decode(&mut buf).unwrap();
    assert_eq!(back.as_bytes(), &data);
}

#[test]
fn encode_emits_no_capacity_bytes() {
    let s = FastString::<64>::new();
    let mut buf = ByteBuffer::new();
    s.encode(&mut buf);
    assert_eq!(buf.as_bytes(), &[0, 0, 0, 0]);
}

#[test]
fn encode_appends_behind_earlier_content() {
    let mut buf = ByteBuffer::new();
    buf.write_bytes(&[9, 9]);
    FastString::<4>::from_str("ab").encode(&mut buf);
    FastString::<4>::from_str("c").encode(&mut buf);
    assert_eq!(buf.as_bytes(), &[9, 9, 2, 0, 0, 0, b'a', b'b', 1, 0, 0, 0, b'c']);
}

#[test]
fn encode_writes_at_the_write_position() {
    let mut buf = ByteBuffer::from_bytes(&[1, 2, 3, 4, 5, 6, 7, 8]);
    buf.set_wpos(1);
    FastString::<4>::from_str("a").encode(&mut buf);
    assert_eq!(buf.as_bytes(), &[1, 1, 0, 0, 0, b'a', 7, 8]);
    assert_eq!(buf.get_wpos(), 6);
    buf.set_wpos(6);
    FastString::<4>::from_str("bc").encode(&mut buf);
    assert_eq!(buf.as_bytes(), &[1, 1, 0, 0, 0, b'a', 2, 0, 0, 0, b'b', b'c']);
}

#[test]
fn encode_after_a_bit_was_written() {
    let mut buf = ByteBuffer::new();
    buf.write_bit(true);
    FastString::<4>::from_str("a").encode(&mut buf);
    assert_eq!(buf.as_bytes(), &[0x80, 1, 0, 0, 0, b'a']);
}

#[test]
fn both_encoders_write_the_same_bytes() {
    let s = FastString::<10>::from_str("hello");
    let mut buf = ByteBuffer::new();
    s.encode(&mut buf);
    let mut fast = FastByteBuffer::new(FastString::<10>::encoded_size());
    s.encode_fast(&mut fast);
    assert_eq!(fast.as_bytes(), buf.as_bytes());
    assert_eq!(fast.as_bytes(), &[0x05, 0x00, 0x00, 0x00, 0x68, 0x65, 0x6C, 0x6C, 0x6F]);
    assert_eq!(fast.len(), 9);
}

#[test]
fn encoded_size_is_capacity_plus_prefix() {
    assert_eq!(FastString::<10>::encoded_size(), 14);
    assert_eq!(FastString::<0>::encoded_size(), 4);
}

#[test]
fn decode_reads_from_the_start_of_the_buffer() {
    let s = FastString::<10>::from_str("hello");
    let mut buf = ByteBuffer::new();
    s.encode(&mut buf);
    let before = buf.clone();
    let back = FastString::<10>::decode(&mut buf).unwrap();
    assert_eq!(back.len(), 5);
    assert_eq!(back.as_bytes(), s.as_bytes());
    assert_eq!(back.to_str(), Ok("hello"));
    assert!(buf == before);
}

#[test]
fn decode_ignores_what_follows() {
    let mut buf = ByteBuffer::from_bytes(&[2, 0, 0, 0, b'o', b'k', b'!', b'!']);
    let back = FastString::<2>::decode(&mut buf).unwrap();
    assert_eq!(back.to_str(), Ok("ok"));
}

#[test]
fn decode_after_fast_encode() {
    let s = FastString::<10>::from_str("wire");
    let mut fast = FastByteBuffer::new(14);
    s.encode_fast(&mut fast);
    let mut buf = ByteBuffer::from_bytes(fast.as_bytes());
    let back = FastString::<10>::decode(&mut buf).unwrap();
    assert_eq!(back.len(), 4);
    assert_eq!(back.as_bytes(), s.as_bytes());
    let mut reader = ByteReader::from_bytes(fast.as_bytes());
    let back = FastString::<10>::decode_from_reader(&mut reader).unwrap();
    assert_eq!(back.as_bytes(), s.as_bytes());
}

#[test]
fn both_decoders_agree() {
    let inputs: [&[u8]; 6] = [
        &[1, 0, 0, 0, 7],
        &[0, 0, 0, 1, 7],
        &[5, 0, 0, 0, 1, 2, 3, 4, 5],
        &[2, 0, 0, 0, 1],
        &[0, 0],
        &[],
    ];
    for input in inputs {
        let mut buf = ByteBuffer::from_bytes(input);
        let mut reader = ByteReader::from_bytes(input);
        let a = FastString::<4>::decode(&mut buf);
        let b = FastString::<4>::decode_from_reader(&mut reader);
        match (a, b) {
            (Ok(x), Ok(y)) => assert_eq!(x.as_bytes(), y.as_bytes()),
            (Err(x), Err(y)) => assert_eq!(x, y),
            _ => panic!("the decoders differ"),
        }
    }
}

#[test]
fn decode_two_strings_in_a_row() {
    let data = [1, 0, 0, 0, b'a', 2, 0, 0, 0, b'b', b'c'];
    let mut reader = ByteReader::from_bytes(&data);
    let first = FastString::<4>::decode_from_reader(&mut reader).unwrap();
    assert_eq!(reader.get_rpos(), 5);
    let second = FastString::<4>::decode_from_reader(&mut reader).unwrap();
    assert_eq!(reader.get_rpos(), 11);
    assert_eq!(first.as_bytes(), b"a");
    assert_eq!(second.as_bytes(), b"bc");
}

#[test]
fn decode_rejects_a_length_above_capacity() {
    let data = [5, 0, 0, 0, b'h', b'e', b'l', b'l', b'o'];
    let mut reader = ByteReader::from_bytes(&data);
    let res = FastString::<4>::decode_from_reader(&mut reader);
    assert!(matches!(res, Err(FastStringError::CapacityExceeded)));
    assert_eq!(reader.get_rpos(), 4);

    let mut buf = ByteBuffer::from_bytes(&data);
    assert!(matches!(FastString::<4>::decode(&mut buf), Err(FastStringError::CapacityExceeded)));
}

#[test]
fn decode_rejects_a_huge_length_without_reading() {
    let data = [0xFF, 0xFF, 0xFF, 0xFF];
    let mut reader = ByteReader::from_bytes(&data);
    let res = FastString::<4>::decode_from_reader(&mut reader);
    assert!(matches!(res, Err(FastStringError::CapacityExceeded)));
    assert_eq!(reader.get_rpos(), 4);
    let data = [0, 0, 0, 1, 7];
    let mut reader = ByteReader::from_bytes(&data);
    let res = FastString::<4>::decode_from_reader(&mut reader);
    assert!(matches!(res, Err(FastStringError::CapacityExceeded)));
}

#[test]
fn decode_rejects_a_short_prefix() {
    let data = [1, 0, 0];
    let mut reader = ByteReader::from_bytes(&data);
    let res = FastString::<4>::decode_from_reader(&mut reader);
    assert!(matches!(res, Err(FastStringError::UnexpectedEof)));
    assert_eq!(reader.get_rpos(), 0);
    let mut empty = ByteBuffer::new();
    assert!(matches!(FastString::<4>::decode(&mut empty), Err(FastStringError::UnexpectedEof)));
}

#[test]
fn decode_rejects_short_content() {
    let data = [3, 0, 0, 0, b'a', b'b'];
    let mut reader = ByteReader::from_bytes(&data);
    let res = FastString::<4>::decode_from_reader(&mut reader);
    assert!(matches!(res, Err(FastStringError::UnexpectedEof)));
    assert_eq!(reader.get_rpos(), 6);
}

#[test]
fn decode_from_a_reader_behind_its_end() {
    let data = [0x80];
    let mut reader = ByteReader::from_bytes(&data);
    assert!(reader.read_bit().unwrap());
    reader.set_rpos(1);
    let res = FastString::<4>::decode_from_reader(&mut reader);
    assert!(matches!(res, Err(FastStringError::UnexpectedEof)));
}

#[test]
fn decode_after_a_bit_was_read() {
    let data = [0x80, 1, 0, 0, 0, b'z'];
    let mut reader = ByteReader::from_bytes(&data);
    assert!(reader.read_bit().unwrap());
    let s = FastString::<4>::decode_from_reader(&mut reader).unwrap();
    assert_eq!(s.as_bytes(), b"z");
    assert_eq!(reader.get_rpos(), 6);
}

#[test]
fn decode_defers_the_text_check() {
    let data = [2, 0, 0, 0, 0xFF, 0xFE];
    let mut reader = ByteReader::from_bytes(&data);
    let s = FastString::<4>::decode_from_reader(&mut reader).unwrap();
    assert_eq!(s.len(), 2);
    assert_eq!(s.as_bytes(), &[0xFF, 0xFE]);
    assert_eq!(s.to_str(), Err(FastStringError::MalformedText));
    assert_eq!(s.to_display_string(), "<invalid UTF-8 string>");
    let mut buf = ByteBuffer::from_bytes(&data);
    let s = FastString::<4>::decode(&mut buf).unwrap();
    assert_eq!(s.as_bytes(), &[0xFF, 0xFE]);
    assert_eq!(s.to_str(), Err(FastStringError::MalformedText));
}

#[test]
fn decode_of_an_empty_string() {
    let data = [0, 0, 0, 0];
    let mut reader = ByteReader::from_bytes(&data);
    let s = FastString::<0>::decode_from_reader(&mut reader).unwrap();
    assert!(s.is_empty());
    assert_eq!(reader.get_rpos(), 4);
}

#[test]
fn fast_buffer_collects_writes() {
    let mut fast = FastByteBuffer::new(7);
    assert!(fast.is_empty());
    assert_eq!(fast.capacity(), 7);
    fast.write_u8(1);
    fast.write_u32(0x0A0B0C0D);
    fast.write_bytes(&[2, 3]);
    assert_eq!(fast.as_bytes(), &[1, 0x0D, 0x0C, 0x0B, 0x0A, 2, 3]);
    assert_eq!(fast.len(), 7);
    assert_eq!(fast.capacity(), 7);
    assert!(!fast.is_empty());
}
