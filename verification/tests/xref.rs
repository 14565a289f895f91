use lib::error::ParseError;
use lib::objects::Reference;
use lib::xref::parser::XrefParser;
use lib::xref::stream::parser::{be_to_u64, parse_integer, strip_leading_zeroes, XrefStreamParser};
use lib::xref::stream::{XrefStreamField, XrefStreamFieldWidths};
use lib::xref::{ByteOffset, Xref, XrefEntry};

const FILE: &[u8] = b"%PDF-1.4\nxref\n0 3\n0000000000 65535 f \n0000000017 00000 n \n0000000081 00000 n \ntrailer\n<<>>\nstartxref\n9\n%%EOF";

#[test]
fn reads_the_table_named_by_startxref() {
    let mut p = XrefParser::new(FILE.to_vec());
    let x = p.read_xref().unwrap();
    assert_eq!(x.trailer_offset, 78);
    assert_eq!(x.xref.objects.len(), 3);
    assert_eq!(x.xref.objects[&0], XrefEntry::Free { next_free_object: 0, generation_number: 65535 });
    assert_eq!(x.xref.objects[&1], XrefEntry::InUse { byte_offset: 17, generation_number: 0 });
    assert_eq!(x.xref.objects[&2], XrefEntry::InUse { byte_offset: 81, generation_number: 0 });
}

#[test]
fn reads_several_subsections() {
    let file = b"%PDF-1.4\nxref\n0 1\n0000000000 65535 f \n3 1\n0000000123 00002 n \ntrailer\nstartxref\n9\n%%EOF";
    let x = XrefParser::new(file.to_vec()).read_xref().unwrap();
    assert_eq!(x.trailer_offset, 62);
    assert_eq!(x.xref.objects[&3], XrefEntry::InUse { byte_offset: 123, generation_number: 2 });
    assert!(!x.xref.objects.contains_key(&1));
}

#[test]
fn stream_section_is_reported() {
    let file = b"%PDF-1.7\n12 0 obj\n<<>>\nstartxref\n9\n%%EOF";
    let mut p = XrefParser::new(file.to_vec());
    assert_eq!(p.read_xref().unwrap_err(), ParseError::XrefStreamAtOffset { offset: 9 });
}

#[test]
fn bad_entry_kind() {
    let file = b"xref\n0 1\n0000000000 65535 q \ntrailer\nstartxref\n0\n";
    let mut p = XrefParser::new(file.to_vec());
    assert_eq!(p.read_xref().unwrap_err(), ParseError::MismatchedByteMany { expected: &[b'f', b'n'], found: Some(b'q') });
}

#[test]
fn parse_at_offset_directly() {
    let mut p = XrefParser::new(FILE.to_vec());
    let x = p.parse_xref_at_offset(9).unwrap();
    assert_eq!(x.trailer_offset, 78);
    assert_eq!(
        p.parse_xref_at_offset(0).unwrap_err(),
        ParseError::XrefStreamAtOffset { offset: 0 }
    );
}

fn table() -> Xref {
    let mut x = Xref::new();
    x.objects.insert(1, XrefEntry::InUse { byte_offset: 500, generation_number: 0 });
    x.objects.insert(2, XrefEntry::Free { next_free_object: 0, generation_number: 1 });
    x.objects.insert(3, XrefEntry::Compressed { object_number: 1, index: 4 });
    x.objects.insert(4, XrefEntry::Compressed { object_number: 3, index: 0 });
    x.objects.insert(5, XrefEntry::Compressed { object_number: 9, index: 0 });
    x.objects.insert(6, XrefEntry::Null);
    x.objects.insert(7, XrefEntry::Compressed { object_number: 8, index: 0 });
    x.objects.insert(8, XrefEntry::Compressed { object_number: 99, index: 0 });
    x.objects.insert(10, XrefEntry::Compressed { object_number: 11, index: 0 });
    x.objects.insert(11, XrefEntry::Compressed { object_number: 10, index: 0 });
    x
}

#[test]
fn get_offset_of_each_kind() {
    let x = table();
    assert_eq!(x.get_offset(Reference::new(1, 0)), Ok(Some(ByteOffset::MainFile(500))));
    assert_eq!(x.get_offset(Reference::new(2, 0)), Ok(None));
    assert_eq!(
        x.get_offset(Reference::new(3, 0)),
        Ok(Some(ByteOffset::ObjectStream { byte_offset: 500, index: 4 }))
    );
    assert_eq!(x.get_offset(Reference::new(4, 0)), Err(ParseError::NestedObjectStream));
    assert_eq!(x.get_offset(Reference::new(5, 0)), Ok(None));
    assert_eq!(x.get_offset(Reference::new(6, 0)), Ok(None));
    assert_eq!(x.get_offset(Reference::new(77, 0)), Ok(None));
}

#[test]
fn chains_of_compressed_entries() {
    let x = table();
    assert_eq!(x.get_offset(Reference::new(8, 0)), Ok(None));
    assert_eq!(x.get_offset(Reference::new(7, 0)), Ok(None));
    assert_eq!(x.get_offset(Reference::new(10, 0)), Err(ParseError::NestedObjectStream));
    let mut big = Xref::new();
    big.objects.insert(1, XrefEntry::Compressed { object_number: u64::MAX, index: 0 });
    if (u64::MAX as u128) > (usize::MAX as u128) {
        assert_eq!(big.get_offset(Reference::new(1, 0)), Err(ParseError::IntegerOverflow));
    }
}

#[test]
fn merge_keeps_newer_entries() {
    let mut newer = Xref::new();
    newer.objects.insert(1, XrefEntry::InUse { byte_offset: 900, generation_number: 1 });
    newer.merge_with_previous(table());
    assert_eq!(newer.get_offset(Reference::new(1, 0)), Ok(Some(ByteOffset::MainFile(900))));
    assert_eq!(newer.objects[&2], XrefEntry::Free { next_free_object: 0, generation_number: 1 });
    assert_eq!(newer.objects.len(), 10);
}

#[test]
fn integer_fields() {
    assert_eq!(strip_leading_zeroes(&[0, 0, 5, 0]), &[5, 0]);
    assert_eq!(strip_leading_zeroes(&[0, 0]), &[] as &[u8]);
    assert_eq!(be_to_u64(&[1, 2]), 258);
    assert_eq!(parse_integer(&[0, 1, 0], None), Ok(256));
    assert_eq!(parse_integer(&[1, 0], None), parse_integer(&[0, 1, 0], None));
    assert_eq!(parse_integer(&[], Some(7)), Ok(7));
    assert_eq!(parse_integer(&[0, 1, 2, 3, 4, 5, 6, 7, 8], None), Ok(0x0102030405060708));
}

#[test]
fn field_widths() {
    let w = XrefStreamFieldWidths::from_arr(&[1, 2, 1]).unwrap();
    assert_eq!(w.field_width(XrefStreamField::One), 1);
    assert_eq!(w.field_width(XrefStreamField::Two), 2);
    assert_eq!(w.field_width(XrefStreamField::Three), 1);
    assert_eq!(w.total_width(), 4);
    assert_eq!(
        XrefStreamFieldWidths::from_arr(&[1, 2]).unwrap_err(),
        ParseError::ArrayOfInvalidLength { expected: 3 }
    );
}

#[test]
fn xref_stream_entries() {
    let w = XrefStreamFieldWidths::from_arr(&[1, 2, 1]).unwrap();
    let stream = [0u8, 0, 0, 255, 1, 0, 17, 0, 2, 0, 5, 3, 7, 1, 1, 1];
    let x = XrefStreamParser::new(&stream, w, vec![(0, 3), (10, 1)]).parse().unwrap();
    assert_eq!(x.objects[&0], XrefEntry::Free { next_free_object: 0, generation_number: 255 });
    assert_eq!(x.objects[&1], XrefEntry::InUse { byte_offset: 17, generation_number: 0 });
    assert_eq!(x.objects[&2], XrefEntry::Compressed { object_number: 5, index: 3 });
    assert_eq!(x.objects[&10], XrefEntry::Null);
    assert_eq!(x.objects.len(), 4);
}

#[test]
fn xref_stream_errors() {
    let w = XrefStreamFieldWidths::from_arr(&[1, 2, 1]).unwrap();
    let short = [1u8, 0, 17];
    assert_eq!(
        XrefStreamParser::new(&short, w, vec![(0, 1)]).parse().unwrap_err(),
        ParseError::TruncatedXrefStream
    );
    let long = [1u8, 0, 17, 0, 9];
    assert_eq!(
        XrefStreamParser::new(&long, w, vec![(0, 1)]).parse().unwrap_err(),
        ParseError::XrefStreamLengthMismatch
    );
    let w0 = XrefStreamFieldWidths::from_arr(&[0, 2, 0]).unwrap();
    let missing = [1u8, 0];
    let w1 = XrefStreamFieldWidths::from_arr(&[1, 1, 0]).unwrap();
    assert_eq!(
        XrefStreamParser::new(&[0u8, 0], w1, vec![(0, 1)]).parse().unwrap_err(),
        ParseError::MissingXrefField
    );
    assert_eq!(
        XrefStreamParser::new(&missing, w1, vec![(0, 1)]).parse().unwrap().objects[&0],
        XrefEntry::InUse { byte_offset: 0, generation_number: 0 }
    );
    let w9 = XrefStreamFieldWidths::from_arr(&[1, 9, 0]).unwrap();
    assert_eq!(
        XrefStreamParser::new(&[1u8, 1, 2, 3, 4, 5, 6, 7, 8, 9], w9, vec![(0, 1)]).parse().unwrap_err(),
        ParseError::XrefFieldTooWide
    );
    let typeless = [0u8, 40];
    let x = XrefStreamParser::new(&typeless, w0, vec![(4, 1)]).parse().unwrap();
    assert_eq!(x.objects[&4], XrefEntry::InUse { byte_offset: 40, generation_number: 0 });
}

#[test]
fn xref_stream_generation_overflow() {
    let w = XrefStreamFieldWidths::from_arr(&[1, 1, 3]).unwrap();
    let free = [0u8, 0, 0x01, 0x11, 0x70];
    assert_eq!(
        XrefStreamParser::new(&free, w, vec![(0, 1)]).parse().unwrap_err(),
        ParseError::IntegerOverflow
    );
    let ok = [1u8, 9, 0, 0xff, 0xff];
    let x = XrefStreamParser::new(&ok, w, vec![(2, 1)]).parse().unwrap();
    assert_eq!(x.objects[&2], XrefEntry::InUse { byte_offset: 9, generation_number: 65535 });
}

#[test]
fn the_last_startxref_is_used() {
    let file = b"%PDF-1.4\nxref\n0 1\n0000000000 65535 f \ntrailer\nstartxref\n9\nxref\n0 2\n0000000000 65535 f \n0000000017 00000 n \ntrailer\nstartxref\n58\n%%EOF";
    let x = XrefParser::new(file.to_vec()).read_xref().unwrap();
    assert_eq!(x.trailer_offset, 107);
    assert_eq!(x.xref.objects.len(), 2);
}

#[test]
fn startxref_far_from_the_end_is_found() {
    for pad in 1000..1030usize {
        let mut f = b"%PDF-1.4\nxref\n0 1\n0000000000 65535 f \ntrailer\nstartxref\n9\n".to_vec();
        f.extend(std::iter::repeat(b' ').take(pad));
        let x = XrefParser::new(f).read_xref().unwrap();
        assert_eq!(x.trailer_offset, 38);
    }
}

#[test]
fn missing_startxref_is_an_error() {
    assert_eq!(XrefParser::new(b"%PDF-1.4\nnothing".to_vec()).read_xref().unwrap_err(), ParseError::StartXrefNotFound);
    assert_eq!(XrefParser::new(Vec::new()).read_xref().unwrap_err(), ParseError::StartXrefNotFound);
}
