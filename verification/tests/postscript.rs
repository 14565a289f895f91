use std::cmp::Ordering;
use std::borrow::Cow;

use lib::postscript::builtin::gen_system_dict;
use lib::postscript::charstring::{CharString, CharStringElement, CharStrings};
use lib::postscript::operator::PostscriptOperator;
use lib::postscript::decode::{decrypt, decrypt_charstring, decrypt_inner};
use lib::postscript::error::PostScriptError;
use lib::postscript::font::{Encoding, FontType, LanguageGroup, PaintType};
use lib::postscript::graphics_operator::GraphicsOperator;
use lib::postscript::lexer::PostScriptLexer;
use lib::postscript::object::{Access, Container, PostScriptString, StringIndex};

fn ps(bytes: &[u8]) -> PostScriptString {
    PostScriptString::from_bytes(bytes.to_vec())
}

#[test]
fn eexec_decryption_recovers_plaintext() {
    assert_eq!(decrypt(&[177, 240, 42, 158, 204]), b"hello".to_vec());
}

#[test]
fn decryption_keeps_length_and_uses_key() {
    assert_eq!(decrypt_inner(&[1, 2, 3, 4, 5], 55665), vec![216, 168, 55, 50, 33]);
    assert_eq!(decrypt_charstring(&[1, 2, 3, 4, 5]), vec![17, 164, 188, 206, 223]);
    assert_eq!(decrypt(&[]), Vec::<u8>::new());
}

#[test]
fn decrypting_a_prefix_gives_a_prefix() {
    let cipher = [16u8, 191, 49, 112, 121, 199, 217];
    let whole = decrypt_charstring(&cipher);
    let part = decrypt_charstring(&cipher[..3]);
    assert_eq!(part, whole[..3].to_vec());
}

#[test]
fn charstring_numbers_and_operators() {
    let c = CharString::parse(&[16, 191, 49, 112, 121, 199, 217, 126, 158, 255, 112, 225, 182, 217, 87, 62]).unwrap();
    assert_eq!(
        c.0,
        vec![
            CharStringElement::Int(0),
            CharStringElement::Int(108),
            CharStringElement::Int(-108),
            CharStringElement::Int(256),
            CharStringElement::Op(GraphicsOperator::HorizontalSideBearingWidth),
            CharStringElement::Op(GraphicsOperator::EndChar),
        ]
    );
}

#[test]
fn charstring_decoding_resumes_after_four_byte_integer() {
    let c = CharString::parse(&[239, 144, 205, 194, 180, 192, 135]).unwrap();
    assert_eq!(
        c.0,
        vec![
            CharStringElement::Int(256),
            CharStringElement::Int(5),
            CharStringElement::Op(GraphicsOperator::EndChar),
        ]
    );
}

#[test]
fn charstring_escaped_operator() {
    let c = CharString::parse(&[155, 216, 33, 145]).unwrap();
    assert_eq!(
        c.0,
        vec![
            CharStringElement::Int(0),
            CharStringElement::Op(GraphicsOperator::CallOtherSubroutine),
            CharStringElement::Op(GraphicsOperator::RelativeLineTo),
        ]
    );
}

#[test]
fn charstring_negative_five_byte_integer_at_end() {
    let c = CharString::parse(&[239, 111, 206, 85, 105]).unwrap();
    assert_eq!(c.0, vec![CharStringElement::Int(-2)]);
}

#[test]
fn charstring_errors() {
    assert_eq!(CharString::parse(&[]).unwrap().0, vec![]);
    assert_eq!(
        CharString::parse(&[155, 214]).unwrap_err(),
        PostScriptError::InvalidCharStringOperator { escaped: false, code: 2 }
    );
    assert_eq!(
        CharString::parse(&[28, 111]).unwrap_err(),
        PostScriptError::InvalidCharStringOperator { escaped: true, code: 3 }
    );
    assert_eq!(CharString::parse(&[155, 35]).unwrap_err(), PostScriptError::TruncatedCharString);
    let bad = vec![(ps(b"a"), ps(&[155, 35]))];
    assert_eq!(CharStrings::from_dict(bad).unwrap_err(), PostScriptError::TruncatedCharString);
}

#[test]
fn decrypting_pieces_in_turn() {
    let cipher = [16u8, 191, 49, 112, 121, 199, 217];
    let whole = decrypt_charstring(&cipher);
    assert_eq!(decrypt_inner(&cipher[..3], 4330), whole[..3].to_vec());
    assert_eq!(whole.len(), cipher.len());
}

#[test]
fn strings_order_by_bytes() {
    assert_eq!(ps(b"abc").partial_cmp(&ps(b"abd")), Some(Ordering::Less));
    assert_eq!(ps(b"ab").partial_cmp(&ps(b"abc")), Some(Ordering::Less));
    assert_eq!(ps(b"b").partial_cmp(&ps(b"abc")), Some(Ordering::Greater));
    let mut s = PostScriptString::with_capacity(2);
    s.write(b"xy");
    assert_eq!(s.partial_cmp(&ps(b"xy")), Some(Ordering::Equal));
    assert!(s == ps(b"xy"));
}

#[test]
fn charstrings_lookup_and_notdef() {
    let mut cs = CharStrings::new();
    assert!(cs.from_string(&ps(b"A")).is_none());
    cs.insert(ps(b"A"), CharString(vec![CharStringElement::Int(1)]));
    cs.insert(ps(b".notdef"), CharString(vec![CharStringElement::Int(7)]));
    assert_eq!(cs.from_string(&ps(b"A")).unwrap().0, vec![CharStringElement::Int(1)]);
    assert_eq!(cs.from_string(&ps(b"B")).unwrap().0, vec![CharStringElement::Int(7)]);
    cs.insert(ps(b"A"), CharString(vec![CharStringElement::Int(2)]));
    assert_eq!(cs.from_string(&ps(b"A")).unwrap().0, vec![CharStringElement::Int(2)]);
    assert!(cs.is_codepoint_defined(b'A'));
    assert!(!cs.is_codepoint_defined(b'B'));
}

#[test]
fn charstrings_from_dict() {
    let entries = vec![
        (ps(b"a"), ps(&[155, 216, 33, 145])),
        (ps(b"b"), ps(&[239, 111, 206, 85, 105])),
    ];
    let cs = CharStrings::from_dict(entries).unwrap();
    assert_eq!(cs.from_string(&ps(b"b")).unwrap().0, vec![CharStringElement::Int(-2)]);
    assert!(cs.from_string(&ps(b"c")).is_none());
}

#[test]
fn postscript_string_write_put_get() {
    let mut s = PostScriptString::with_capacity(4);
    assert_eq!(s.as_bytes(), &[0, 0, 0, 0]);
    assert_eq!(s.capacity(), 4);
    assert_eq!(s.len(), 4);
    assert!(!s.is_empty());
    s.write(b"ab");
    assert_eq!(s.as_bytes(), b"ab\0\0");
    s.write(b"c");
    assert_eq!(s.as_bytes(), b"cb\0\0");
    s.write(b"ab");
    s.put(3, b'z');
    assert_eq!(s.get(3), Ok(b'z'));
    assert_eq!(s.get(4), Err(PostScriptError::RangeCheck));
    s.set_access(Access::ReadOnly);
    assert_eq!(s.clone().into_bytes(), b"ab\0z".to_vec());
    assert!(PostScriptString::from_bytes(Vec::new()).is_empty());
    assert!(ps(b"x") == ps(b"x"));
    assert!(ps(b"x") != ps(b"y"));
}

#[test]
fn container_hands_out_fresh_indices() {
    let mut c: Container<StringIndex, PostScriptString> = Container::new();
    let a = c.insert(ps(b"one"));
    let b = c.insert(ps(b"two"));
    assert_eq!(c.get(&a).unwrap().as_bytes(), b"one");
    assert_eq!(c.get(&b).unwrap().as_bytes(), b"two");
    c.get_mut(&a).unwrap().put(0, b'O');
    assert_eq!(c.get(&a).unwrap().as_bytes(), b"One");
}

#[test]
fn encoding_names_and_notdef() {
    let e = Encoding::new(vec![None, Some(ps(b"space"))]);
    assert_eq!(e.get(1).as_bytes(), b"space");
    assert_eq!(e.get(0).as_bytes(), b".notdef");
    assert_eq!(e.get(9).as_bytes(), b".notdef");
    assert!(matches!(e.get(1), Cow::Borrowed(_)));
}

#[test]
fn font_dictionary_integers() {
    assert_eq!(FontType::from_integer(1), Ok(FontType::One));
    assert_eq!(FontType::from_integer(3), Ok(FontType::Three));
    assert_eq!(FontType::from_integer(2), Err(PostScriptError::RangeCheck));
    assert!(PaintType::from_integer(0).is_ok());
    assert!(PaintType::from_integer(5).is_err());
    assert!(LanguageGroup::from_integer(1).is_ok());
    assert!(LanguageGroup::from_integer(2).is_err());
}

#[test]
fn lexer_cursor_views() {
    let mut l = PostScriptLexer::new(Cow::Borrowed(&b"  \n abc"[..]));
    assert_eq!(l.buffer_from_cursor(), b"abc");
    assert_eq!(l.buffer_from_cursor(), b"abc");
    assert_eq!(l.get_range_from_cursor(2), (&b"ab"[..], true));
    assert_eq!(l.get_range_from_cursor(3), (&b"abc"[..], false));
    l.reset_buffer(Cow::Owned(b"xy".to_vec()));
    assert_eq!(l.get_range_from_cursor(1), (&b"x"[..], true));
}

#[test]
fn system_dictionary() {
    let d = gen_system_dict();
    assert_eq!(d.len(), 27);
    let find = |name: &[u8]| d.iter().find(|(k, _)| k.as_bytes() == name).map(|(_, op)| *op);
    assert_eq!(find(b"abs"), Some(PostscriptOperator::Abs));
    assert_eq!(find(b"{"), Some(PostscriptOperator::ProcedureStart));
    assert_eq!(find(b"arraystart"), Some(PostscriptOperator::ArrayStart));
    assert_eq!(find(b"maxlength"), Some(PostscriptOperator::MaxLength));
    assert_eq!(find(b"sub"), None);
    for i in 0..d.len() {
        for j in (i + 1)..d.len() {
            assert!(d[i].0.as_bytes() != d[j].0.as_bytes());
        }
    }
}
