use lib::error::ParseError;
use lib::objects::Reference;
use lib::simple_xref::{EntryKind, XrefEntry, XrefParser};

#[test]
fn simple_table_is_read() {
    let file = b"%PDF-1.4\nxref\n0 3\n0000000000 65535 f \n0000000017 00000 n \n0000000081 00000 n \ntrailer\n<<>>\nstartxref\n9\n%%EOF";
    let (x, trailer) = XrefParser::new(file).read_xref().unwrap();
    assert_eq!(trailer, 78);
    assert_eq!(x.objects[&0], XrefEntry { byte_offset: 0, generation: 65535, kind: EntryKind::Free });
    assert_eq!(x.objects[&2], XrefEntry { byte_offset: 81, generation: 0, kind: EntryKind::InUse });
    assert_eq!(x.get_offset(Reference::new(1, 0)), Some(17));
    assert_eq!(x.get_offset(Reference::new(3, 0)), None);
}

#[test]
fn simple_table_errors() {
    let stream = b"%PDF-1.7\n1 0 obj\nstartxref\n9\n";
    assert_eq!(XrefParser::new(stream).read_xref().unwrap_err(), ParseError::MismatchedBytes);
    let no_eol = b"xref\n0 1 0000000000 65535 f \ntrailer\nstartxref\n0\n";
    assert_eq!(XrefParser::new(no_eol).read_xref().unwrap_err(), ParseError::ExpectedEol);
}

#[test]
fn entry_kinds() {
    assert_eq!(EntryKind::from_byte(b'f'), Ok(EntryKind::Free));
    assert_eq!(EntryKind::from_byte(b'n'), Ok(EntryKind::InUse));
    assert_eq!(EntryKind::from_byte(b'x'), Err(ParseError::MismatchedByteMany { expected: &[b'f', b'n'], found: Some(b'x') }));
}

#[test]
fn simple_reader_uses_the_last_startxref() {
    let file = b"%PDF-1.4\nxref\n0 1\n0000000000 65535 f \ntrailer\nstartxref\n9\nxref\n0 2\n0000000000 65535 f \n0000000017 00000 n \ntrailer\nstartxref\n58\n%%EOF";
    let (x, trailer) = XrefParser::new(file).read_xref().unwrap();
    assert_eq!(trailer, 107);
    assert_eq!(x.get_offset(Reference::new(1, 0)), Some(17));
    assert_eq!(XrefParser::new(b"no keyword").read_xref().unwrap_err(), ParseError::StartXrefNotFound);
}
