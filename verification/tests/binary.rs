use lib::error::ParseError;
use lib::object_stream::ObjectStreamParser;
use lib::objects::Reference;
use lib::parse_binary::{BinaryParser, ByteCursor};

#[test]
fn big_endian_integers() {
    let mut c = ByteCursor::new(vec![0x12, 0x34, 0xff, 0xfe, 0, 0, 0, 1, 0xff, 0xff, 0xff, 0xff]);
    assert_eq!(c.parse_u16(), Ok(0x1234));
    assert_eq!(c.parse_i16(), Ok(-2));
    assert_eq!(c.parse_u32(), Ok(1));
    assert_eq!(c.parse_i32(), Ok(-1));
    assert_eq!(c.next(), Err(ParseError::UnexpectedEof));
    assert_eq!(c.peek(), None);
}

#[test]
fn wide_integers_and_peek() {
    let mut c = ByteCursor::new(vec![0, 0, 0, 0, 0, 0, 1, 0, 0xff, 0xff, 0xff, 0xff, 0xff, 0xff, 0xff, 0xfd, 7]);
    assert_eq!(c.parse_u64(), Ok(256));
    assert_eq!(c.parse_i64(), Ok(-3));
    assert_eq!(c.peek(), Some(7));
    assert_eq!(c.next(), Ok(7));
    let mut short = ByteCursor::new(vec![1, 2, 3]);
    assert_eq!(short.parse_u32(), Err(ParseError::UnexpectedEof));
    let mut bytes = ByteCursor::new(vec![9, 8, 7, 6]);
    assert_eq!(bytes.parse_u32_bytes(), Ok([9, 8, 7, 6]));
}

#[test]
fn object_stream_header() {
    let data = b"11 0 12 5\n(aaa)(bb)".to_vec();
    let p = ObjectStreamParser::new(data, 2, 10).unwrap();
    assert_eq!(p.object_offset(Reference::new(11, 0)), Some(0));
    assert_eq!(p.object_offset(Reference::new(12, 0)), Some(5));
    assert_eq!(p.object_offset(Reference::new(13, 0)), None);
}

#[test]
fn object_stream_header_errors() {
    assert_eq!(ObjectStreamParser::new(b"11 x".to_vec(), 1, 0).unwrap_err(), ParseError::InvalidNumber);
    assert_eq!(ObjectStreamParser::new(b"1 0".to_vec(), 2, 0).unwrap_err(), ParseError::InvalidNumber);
    assert_eq!(ObjectStreamParser::new(b"1 0 ".to_vec(), 1, 9).unwrap_err(), ParseError::UnexpectedEof);
}

#[test]
fn array_lengths() {
    assert_eq!(lib::assert_len(&[1, 2, 3], 3), Ok(()));
    assert_eq!(
        lib::assert_len(&[1, 2], 3),
        Err(ParseError::ArrayOfInvalidLength { expected: 3 })
    );
    let r = Reference::new(4, 2);
    assert_eq!((r.object_number, r.generation), (4, 2));
}
