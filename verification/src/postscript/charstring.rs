//! Type 1 charstrings: the encrypted, byte-coded glyph programs of a font.

use vstd::prelude::*;

use crate::parse_binary::be_signed;
use crate::xref::stream::parser::{be_to_u64, be_value, lemma_be_value_bound};

use super::decode::{charstring_key, decrypt_charstring, spec_decrypt};
use super::error::PostScriptError;
use super::font::{notdef_name, Encoding};
use super::graphics_operator::GraphicsOperator;
use super::object::{bytes_equal, PostScriptString};

verus! {

/// One element of a decoded charstring: a number or an operator
#[derive(Debug, Clone, Copy, PartialEq, Eq, Structural)]
pub enum CharStringElement {
    Int(i32),
    Op(GraphicsOperator),
}

/// The operator that a one-byte command code (0 to 31, except the escape
/// byte 12) stands for
pub open spec fn spec_op(code: u8) -> Option<GraphicsOperator> {
    if code == 1 {
        Some(GraphicsOperator::HorizontalStem)
    } else if code == 3 {
        Some(GraphicsOperator::VerticalStem)
    } else if code == 4 {
        Some(GraphicsOperator::VerticalMoveTo)
    } else if code == 5 {
        Some(GraphicsOperator::RelativeLineTo)
    } else if code == 6 {
        Some(GraphicsOperator::HorizontalLineTo)
    } else if code == 7 {
        Some(GraphicsOperator::VerticalLineTo)
    } else if code == 8 {
        Some(GraphicsOperator::RelativeRelativeCurveTo)
    } else if code == 9 {
        Some(GraphicsOperator::ClosePath)
    } else if code == 10 {
        Some(GraphicsOperator::CallSubroutine)
    } else if code == 11 {
        Some(GraphicsOperator::Return)
    } else if code == 13 {
        Some(GraphicsOperator::HorizontalSideBearingWidth)
    } else if code == 14 {
        Some(GraphicsOperator::EndChar)
    } else if code == 21 {
        Some(GraphicsOperator::RelativeMoveTo)
    } else if code == 22 {
        Some(GraphicsOperator::HorizontalMoveTo)
    } else if code == 30 {
        Some(GraphicsOperator::VerticalHorizontalCurveTo)
    } else if code == 31 {
        Some(GraphicsOperator::HorizontalVerticalCurveTo)
    } else {
        None
    }
}

/// The operator that the two-byte command `12 code` stands for
pub open spec fn spec_escaped_op(code: u8) -> Option<GraphicsOperator> {
    if code == 0 {
        Some(GraphicsOperator::DotSection)
    } else if code == 1 {
        Some(GraphicsOperator::VerticalStem3)
    } else if code == 2 {
        Some(GraphicsOperator::HorizontalStem3)
    } else if code == 6 {
        Some(GraphicsOperator::StandardEncodingAccentedCharacter)
    } else if code == 7 {
        Some(GraphicsOperator::SideBearingWidth)
    } else if code == 12 {
        Some(GraphicsOperator::Div)
    } else if code == 16 {
        Some(GraphicsOperator::CallOtherSubroutine)
    } else if code == 17 {
        Some(GraphicsOperator::Pop)
    } else if code == 33 {
        Some(GraphicsOperator::SetCurrentPoint)
    } else {
        None
    }
}

/// Decodes the element at `i` of the plaintext charstring `b`; returns it
/// with the position of the next element.
///
/// A byte v from 32 to 246 is the integer v - 139; v from 247 to 250 with the
/// next byte w is (v - 247) * 256 + w + 108; v from 251 to 254 with w is
/// -(v - 251) * 256 - w - 108; 255 is followed by a four-byte two's complement
/// integer, highest byte first. Bytes below 32 are commands.
pub open spec fn spec_step(b: Seq<u8>, i: int) -> Result<(CharStringElement, int), PostScriptError> {
    let v = b[i];
    if v <= 31 {
        if v == 12 {
            if i + 1 < b.len() {
                match spec_escaped_op(b[i + 1]) {
                    Some(op) => Ok((CharStringElement::Op(op), i + 2)),
                    None => Err(PostScriptError::InvalidCharStringOperator { escaped: true, code: b[i + 1] }),
                }
            } else {
                Err(PostScriptError::TruncatedCharString)
            }
        } else {
            match spec_op(v) {
                Some(op) => Ok((CharStringElement::Op(op), i + 1)),
                None => Err(PostScriptError::InvalidCharStringOperator { escaped: false, code: v }),
            }
        }
    } else if v <= 246 {
        Ok((CharStringElement::Int((v - 139) as i32), i + 1))
    } else if v <= 250 {
        if i + 1 < b.len() {
            Ok((CharStringElement::Int(((v - 247) * 256 + b[i + 1] + 108) as i32), i + 2))
        } else {
            Err(PostScriptError::TruncatedCharString)
        }
    } else if v <= 254 {
        if i + 1 < b.len() {
            Ok((CharStringElement::Int((-((v - 251) * 256) - b[i + 1] - 108) as i32), i + 2))
        } else {
            Err(PostScriptError::TruncatedCharString)
        }
    } else {
        if i + 5 <= b.len() {
            Ok((CharStringElement::Int(be_signed(b.subrange(i + 1, i + 5), 0x1_0000_0000) as i32), i + 5))
        } else {
            Err(PostScriptError::TruncatedCharString)
        }
    }
}

/// Decodes the plaintext `b` from position `i` to its end.
pub open spec fn spec_parse_from(b: Seq<u8>, i: int) -> Result<Seq<CharStringElement>, PostScriptError>
    decreases b.len() - i,
{
    if i < 0 || i >= b.len() {
        Ok(Seq::empty())
    } else {
        match spec_step(b, i) {
            Err(e) => Err(e),
            Ok((elem, n)) => if n > i {
                match spec_parse_from(b, n) {
                    Ok(rest) => Ok(seq![elem] + rest),
                    Err(e) => Err(e),
                }
            } else {
                Err(PostScriptError::TruncatedCharString)
            },
        }
    }
}

/// Where decoding of a decrypted charstring starts: after its first four
/// bytes when these are all zero.
pub open spec fn spec_start(d: Seq<u8>) -> int {
    if d.len() >= 4 && d[0] == 0u8 && d[1] == 0u8 && d[2] == 0u8 && d[3] == 0u8 {
        4
    } else {
        0
    }
}

/// The elements of the encrypted charstring `cipher`
pub open spec fn spec_charstring(cipher: Seq<u8>) -> Result<Seq<CharStringElement>, PostScriptError> {
    let d = spec_decrypt(cipher, charstring_key());
    spec_parse_from(d, spec_start(d))
}

/// `elems` followed by the elements of `rest`, if `rest` decoded
pub open spec fn prepend(elems: Seq<CharStringElement>, rest: Result<Seq<CharStringElement>, PostScriptError>) -> Result<
    Seq<CharStringElement>,
    PostScriptError,
> {
    match rest {
        Ok(r) => Ok(elems + r),
        Err(e) => Err(e),
    }
}

/// How each number of a charstring is written, at any position `i` of the
/// plaintext `d`: the elements from `i` on are the number that starts there,
/// followed by the elements after its last byte.
///
/// - a byte v from 32 to 246 is the number v - 139 (from -107 to 107);
/// - v from 247 to 250 and the next byte w are (v - 247) * 256 + w + 108
///   (from 108 to 1131);
/// - v from 251 to 254 and w are -(v - 251) * 256 - w - 108 (from -1131 to
///   -108);
/// - 255 and the next four bytes are the 32-bit two's complement integer
///   that those four bytes hold, highest byte first.
pub proof fn lemma_charstring_numbers(d: Seq<u8>, i: int)
    requires
        0 <= i < d.len(),
    ensures
        32 <= d[i] <= 246 ==> spec_parse_from(d, i) == prepend(
            seq![CharStringElement::Int((d[i] - 139) as i32)],
            spec_parse_from(d, i + 1),
        ) && -107 <= d[i] - 139 <= 107,
        247 <= d[i] <= 250 && i + 1 < d.len() ==> spec_parse_from(d, i) == prepend(
            seq![CharStringElement::Int(((d[i] - 247) * 256 + d[i + 1] + 108) as i32)],
            spec_parse_from(d, i + 2),
        ) && 108 <= (d[i] - 247) * 256 + d[i + 1] + 108 <= 1131,
        251 <= d[i] <= 254 && i + 1 < d.len() ==> spec_parse_from(d, i) == prepend(
            seq![CharStringElement::Int((-(d[i] - 251) * 256 - d[i + 1] - 108) as i32)],
            spec_parse_from(d, i + 2),
        ) && -1131 <= -(d[i] - 251) * 256 - d[i + 1] - 108 <= -108,
        d[i] == 255 && i + 5 <= d.len() ==> ({
            let u = d[i + 1] * 0x100_0000 + d[i + 2] * 0x1_0000 + d[i + 3] * 0x100 + d[i + 4];
            spec_parse_from(d, i) == prepend(
                seq![CharStringElement::Int((if u >= 0x8000_0000 { u - 0x1_0000_0000 } else { u }) as i32)],
                spec_parse_from(d, i + 5),
            )
        }),
{
    if d[i] == 255 && i + 5 <= d.len() {
        let f = d.subrange(i + 1, i + 5);
        reveal_with_fuel(crate::xref::stream::parser::be_value, 5);
        assert(f.drop_last().drop_last().drop_last().drop_last() =~= Seq::<u8>::empty());
        assert(f.drop_last().drop_last().drop_last().last() == d[i + 1]);
        assert(f.drop_last().drop_last().last() == d[i + 2]);
        assert(f.drop_last().last() == d[i + 3]);
        assert(f.last() == d[i + 4]);
    }
}

/// A charstring whose plaintext is a byte v from 251 to 254 and a byte w
/// decodes to the single number -(v - 251) * 256 - w - 108.
pub proof fn lemma_charstring_two_byte_negative(b: Seq<u8>, v: u8, w: u8)
    requires
        spec_decrypt(b, charstring_key()) == seq![v, w],
        251 <= v <= 254,
    ensures
        spec_charstring(b) == Ok::<Seq<CharStringElement>, PostScriptError>(
            seq![CharStringElement::Int((-(v - 251) * 256 - w - 108) as i32)],
        ),
{
    let d = spec_decrypt(b, charstring_key());
    assert(spec_start(d) == 0);
    lemma_charstring_numbers(d, 0);
    assert(spec_parse_from(d, 2) == Ok::<Seq<CharStringElement>, PostScriptError>(Seq::empty()));
    assert(seq![CharStringElement::Int((-(v - 251) * 256 - w - 108) as i32)] + Seq::<CharStringElement>::empty()
        =~= seq![CharStringElement::Int((-(v - 251) * 256 - w - 108) as i32)]);
}

/// The operators that the one-byte commands and the two-byte commands
/// `12 c` stand for, and that every other command byte is no operator.
pub proof fn lemma_charstring_operator_table()
    ensures
        spec_op(1) == Some(GraphicsOperator::HorizontalStem),
        spec_op(3) == Some(GraphicsOperator::VerticalStem),
        spec_op(4) == Some(GraphicsOperator::VerticalMoveTo),
        spec_op(5) == Some(GraphicsOperator::RelativeLineTo),
        spec_op(6) == Some(GraphicsOperator::HorizontalLineTo),
        spec_op(7) == Some(GraphicsOperator::VerticalLineTo),
        spec_op(8) == Some(GraphicsOperator::RelativeRelativeCurveTo),
        spec_op(9) == Some(GraphicsOperator::ClosePath),
        spec_op(10) == Some(GraphicsOperator::CallSubroutine),
        spec_op(11) == Some(GraphicsOperator::Return),
        spec_op(13) == Some(GraphicsOperator::HorizontalSideBearingWidth),
        spec_op(14) == Some(GraphicsOperator::EndChar),
        spec_op(21) == Some(GraphicsOperator::RelativeMoveTo),
        spec_op(22) == Some(GraphicsOperator::HorizontalMoveTo),
        spec_op(30) == Some(GraphicsOperator::VerticalHorizontalCurveTo),
        spec_op(31) == Some(GraphicsOperator::HorizontalVerticalCurveTo),
        forall|c: u8|
            #![trigger spec_op(c)]
            !(c == 1 || c == 3 || (4 <= c <= 11) || c == 13 || c == 14 || c == 21 || c == 22 || c == 30 || c == 31)
                ==> spec_op(c) is None,
        spec_escaped_op(0) == Some(GraphicsOperator::DotSection),
        spec_escaped_op(1) == Some(GraphicsOperator::VerticalStem3),
        spec_escaped_op(2) == Some(GraphicsOperator::HorizontalStem3),
        spec_escaped_op(6) == Some(GraphicsOperator::StandardEncodingAccentedCharacter),
        spec_escaped_op(7) == Some(GraphicsOperator::SideBearingWidth),
        spec_escaped_op(12) == Some(GraphicsOperator::Div),
        spec_escaped_op(16) == Some(GraphicsOperator::CallOtherSubroutine),
        spec_escaped_op(17) == Some(GraphicsOperator::Pop),
        spec_escaped_op(33) == Some(GraphicsOperator::SetCurrentPoint),
        forall|c: u8|
            #![trigger spec_escaped_op(c)]
            !(c == 0 || c == 1 || c == 2 || c == 6 || c == 7 || c == 12 || c == 16 || c == 17 || c == 33)
                ==> spec_escaped_op(c) is None,
{
}

/// At a command byte the elements from `i` on are its operator followed by
/// the elements after the command; a command byte that names no operator is
/// an error.
pub proof fn lemma_charstring_commands(d: Seq<u8>, i: int)
    requires
        0 <= i < d.len(),
        d[i] <= 31,
    ensures
        d[i] != 12 && spec_op(d[i]) is Some ==> spec_parse_from(d, i) == prepend(
            seq![CharStringElement::Op(spec_op(d[i])->Some_0)],
            spec_parse_from(d, i + 1),
        ),
        d[i] != 12 && spec_op(d[i]) is None ==> spec_parse_from(d, i) == Err::<Seq<CharStringElement>, PostScriptError>(
            PostScriptError::InvalidCharStringOperator { escaped: false, code: d[i] },
        ),
        d[i] == 12 && i + 1 < d.len() && spec_escaped_op(d[i + 1]) is Some ==> spec_parse_from(d, i) == prepend(
            seq![CharStringElement::Op(spec_escaped_op(d[i + 1])->Some_0)],
            spec_parse_from(d, i + 2),
        ),
        d[i] == 12 && i + 1 < d.len() && spec_escaped_op(d[i + 1]) is None ==> spec_parse_from(d, i) == Err::<
            Seq<CharStringElement>,
            PostScriptError,
        >(PostScriptError::InvalidCharStringOperator { escaped: true, code: d[i + 1] }),
{
}

/// A decoded charstring
#[derive(Debug)]
pub struct CharString(pub Vec<CharStringElement>);

impl View for CharString {
    type V = Seq<CharStringElement>;

    open spec fn view(&self) -> Seq<CharStringElement> {
        self.0@
    }
}

/// The operator for a one-byte command code
fn op_from_code(code: u8) -> (r: Option<GraphicsOperator>)
    ensures
        r == spec_op(code),
{
    match code {
        1 => Some(GraphicsOperator::HorizontalStem),
        3 => Some(GraphicsOperator::VerticalStem),
        4 => Some(GraphicsOperator::VerticalMoveTo),
        5 => Some(GraphicsOperator::RelativeLineTo),
        6 => Some(GraphicsOperator::HorizontalLineTo),
        7 => Some(GraphicsOperator::VerticalLineTo),
        8 => Some(GraphicsOperator::RelativeRelativeCurveTo),
        9 => Some(GraphicsOperator::ClosePath),
        10 => Some(GraphicsOperator::CallSubroutine),
        11 => Some(GraphicsOperator::Return),
        13 => Some(GraphicsOperator::HorizontalSideBearingWidth),
        14 => Some(GraphicsOperator::EndChar),
        21 => Some(GraphicsOperator::RelativeMoveTo),
        22 => Some(GraphicsOperator::HorizontalMoveTo),
        30 => Some(GraphicsOperator::VerticalHorizontalCurveTo),
        31 => Some(GraphicsOperator::HorizontalVerticalCurveTo),
        _ => None,
    }
}

/// The operator for the command `12 code`
fn escaped_op_from_code(code: u8) -> (r: Option<GraphicsOperator>)
    ensures
        r == spec_escaped_op(code),
{
    match code {
        0 => Some(GraphicsOperator::DotSection),
        1 => Some(GraphicsOperator::VerticalStem3),
        2 => Some(GraphicsOperator::HorizontalStem3),
        6 => Some(GraphicsOperator::StandardEncodingAccentedCharacter),
        7 => Some(GraphicsOperator::SideBearingWidth),
        12 => Some(GraphicsOperator::Div),
        16 => Some(GraphicsOperator::CallOtherSubroutine),
        17 => Some(GraphicsOperator::Pop),
        33 => Some(GraphicsOperator::SetCurrentPoint),
        _ => None,
    }
}

/// Decodes the element at `i`.
fn step(b: &[u8], i: usize) -> (r: Result<(CharStringElement, usize), PostScriptError>)
    requires
        i < b@.len(),
    ensures
        match r {
            Ok((e, n)) => spec_step(b@, i as int) == Ok::<(CharStringElement, int), PostScriptError>((e, n as int))
                && i < n,
            Err(err) => spec_step(b@, i as int) == Err::<(CharStringElement, int), PostScriptError>(err),
        },
{
    let len = b.len();
    let v = b[i];
    if v <= 31 {
        if v == 12 {
            if i + 1 < len {
                match escaped_op_from_code(b[i + 1]) {
                    Some(op) => Ok((CharStringElement::Op(op), i + 2)),
                    None => Err(PostScriptError::InvalidCharStringOperator { escaped: true, code: b[i + 1] }),
                }
            } else {
                Err(PostScriptError::TruncatedCharString)
            }
        } else {
            match op_from_code(v) {
                Some(op) => Ok((CharStringElement::Op(op), i + 1)),
                None => Err(PostScriptError::InvalidCharStringOperator { escaped: false, code: v }),
            }
        }
    } else if v <= 246 {
        Ok((CharStringElement::Int(v as i32 - 139), i + 1))
    } else if v <= 250 {
        if i + 1 < len {
            let w = b[i + 1] as i32;
            Ok((CharStringElement::Int((v as i32 - 247) * 256 + w + 108), i + 2))
        } else {
            Err(PostScriptError::TruncatedCharString)
        }
    } else if v <= 254 {
        if i + 1 < len {
            let w = b[i + 1] as i32;
            Ok((CharStringElement::Int(-((v as i32 - 251) * 256) - w - 108), i + 2))
        } else {
            Err(PostScriptError::TruncatedCharString)
        }
    } else {
        if len - i >= 5 {
            let (head, _) = b.split_at(i + 5);
            let (_, bytes) = head.split_at(i + 1);
            assert(bytes@ =~= b@.subrange(i + 1, i + 5));
            let u = be_to_u64(bytes);
            proof {
                lemma_be_value_bound(bytes@);
                reveal_with_fuel(crate::xref::stream::parser::pow256, 5);
            }
            let value: i32 = if u >= 2147483648 {
                (u as i64 - 4294967296) as i32
            } else {
                u as i32
            };
            Ok((CharStringElement::Int(value), i + 5))
        } else {
            Err(PostScriptError::TruncatedCharString)
        }
    }
}

impl CharString {
    /// Decrypts and decodes a charstring. It decodes when each command byte
    /// names an operator and no number is cut off by the end; otherwise the
    /// first such fault is the error.
    pub fn parse(b: &[u8]) -> (r: Result<CharString, PostScriptError>)
        ensures
            spec_charstring(b@) is Ok ==> r is Ok,
            match r {
                Ok(c) => spec_charstring(b@) == Ok::<Seq<CharStringElement>, PostScriptError>(c@),
                Err(e) => spec_charstring(b@) == Err::<Seq<CharStringElement>, PostScriptError>(e),
            },
    {
        let d = decrypt_charstring(b);
        let mut i: usize = 0;
        if d.len() >= 4 && d[0] == 0 && d[1] == 0 && d[2] == 0 && d[3] == 0 {
            i = 4;
        }
        let ghost start = i as int;
        let mut elems: Vec<CharStringElement> = Vec::new();
        while i < d.len()
            invariant
                d@ == spec_decrypt(b@, charstring_key()),
                start == spec_start(d@),
                0 <= start,
                spec_parse_from(d@, start) == prepend(elems@, spec_parse_from(d@, i as int)),
            decreases d@.len() - i,
        {
            let ghost before = elems@;
            match step(d.as_slice(), i) {
                Ok((elem, next)) => {
                    elems.push(elem);
                    assert(elems@ + spec_parse_from(d@, next as int)->Ok_0 =~= before + (seq![elem] + spec_parse_from(d@, next as int)->Ok_0));
                    i = next;
                },
                Err(e) => {
                    assert(spec_parse_from(d@, i as int) == Err::<Seq<CharStringElement>, PostScriptError>(e));
                    return Err(e);
                },
            }
        }
        assert(elems@ + Seq::<CharStringElement>::empty() =~= elems@);
        Ok(CharString(elems))
    }
}

/// The glyph names with their encrypted charstrings, as plain values
pub open spec fn entries_view(entries: Seq<(PostScriptString, PostScriptString)>) -> Seq<(Seq<u8>, Seq<u8>)> {
    entries.map_values(|e: (PostScriptString, PostScriptString)| (e.0@, e.1@))
}

/// The charstrings of a font's CharStrings dictionary, given as glyph names
/// with encrypted charstrings: each decoded and stored under its name, a
/// later entry replacing an earlier one of the same name. The first entry
/// that does not decode gives the error.
pub open spec fn spec_from_dict(entries: Seq<(Seq<u8>, Seq<u8>)>) -> Result<
    Map<Seq<u8>, Seq<CharStringElement>>,
    PostScriptError,
>
    decreases entries.len(),
{
    if entries.len() == 0 {
        Ok(Map::empty())
    } else {
        match spec_from_dict(entries.drop_last()) {
            Err(e) => Err(e),
            Ok(m) => match spec_charstring(entries.last().1) {
                Ok(p) => Ok(m.insert(entries.last().0, p)),
                Err(e) => Err(e),
            },
        }
    }
}

/// An error in the first `k` entries is the error of all of them.
pub proof fn lemma_from_dict_err(entries: Seq<(Seq<u8>, Seq<u8>)>, k: int)
    requires
        0 <= k <= entries.len(),
        spec_from_dict(entries.take(k)) is Err,
    ensures
        spec_from_dict(entries) == spec_from_dict(entries.take(k)),
    decreases entries.len() - k,
{
    if k < entries.len() {
        assert(entries.take(k + 1).drop_last() =~= entries.take(k));
        lemma_from_dict_err(entries, k + 1);
    } else {
        assert(entries.take(k) =~= entries);
    }
}

/// The first `k + 1` entries: the first `k`, then entry `k`.
proof fn lemma_from_dict_take(entries: Seq<(Seq<u8>, Seq<u8>)>, k: int)
    requires
        0 <= k < entries.len(),
    ensures
        spec_from_dict(entries.take(k + 1)) == match spec_from_dict(entries.take(k)) {
            Err(e) => Err(e),
            Ok(m) => match spec_charstring(entries[k].1) {
                Ok(p) => Ok(m.insert(entries[k].0, p)),
                Err(e) => Err(e),
            },
        },
{
    assert(entries.take(k + 1).drop_last() =~= entries.take(k));
    assert(entries.take(k + 1).last() == entries[k]);
}

/// The charstrings of a font, by glyph name
#[derive(Debug)]
pub struct CharStrings {
    entries: Vec<(PostScriptString, CharString)>,
}

impl CharStrings {
    /// The glyph names, in insertion order
    pub closed spec fn names(&self) -> Seq<Seq<u8>> {
        self.entries@.map_values(|e: (PostScriptString, CharString)| e.0@)
    }

    /// The charstrings, in the order of `names`
    pub closed spec fn programs(&self) -> Seq<Seq<CharStringElement>> {
        self.entries@.map_values(|e: (PostScriptString, CharString)| e.1@)
    }

    /// No glyph name occurs twice
    pub closed spec fn well_formed(&self) -> bool {
        forall|i: int, j: int|
            0 <= i < j < self.entries@.len() ==> #[trigger] self.entries@[i].0@ != #[trigger] self.entries@[j].0@
    }

    /// The charstrings, as a map from glyph name to program
    pub open spec fn view_map(&self) -> Map<Seq<u8>, Seq<CharStringElement>> {
        Map::new(
            |k: Seq<u8>| exists|i: int| 0 <= i < self.names().len() && self.names()[i] == k,
            |k: Seq<u8>| self.programs()[choose|i: int| 0 <= i < self.names().len() && self.names()[i] == k],
        )
    }

    pub fn new() -> (r: CharStrings)
        ensures
            r.well_formed(),
            r.view_map() == Map::<Seq<u8>, Seq<CharStringElement>>::empty(),
    {
        let r = CharStrings { entries: Vec::new() };
        assert(r.view_map() =~= Map::<Seq<u8>, Seq<CharStringElement>>::empty());
        r
    }

    /// The position of the entry named `name`, if any
    fn position(&self, name: &[u8]) -> (r: Option<usize>)
        requires
            self.well_formed(),
        ensures
            match r {
                Some(i) => i < self.names().len() && self.names()[i as int] == name@,
                None => forall|i: int| 0 <= i < self.names().len() ==> self.names()[i] != name@,
            },
    {
        let mut i: usize = 0;
        while i < self.entries.len()
            invariant
                i <= self.entries@.len(),
                forall|j: int| 0 <= j < i ==> self.names()[j] != name@,
            decreases self.entries@.len() - i,
        {
            if bytes_equal(self.entries[i].0.as_bytes(), name) {
                return Some(i);
            }
            i = i + 1;
        }
        None
    }

    /// Builds the charstrings from the entries of a CharStrings dictionary:
    /// glyph names with their encrypted charstrings. It succeeds when every
    /// charstring decodes.
    pub fn from_dict(entries: Vec<(PostScriptString, PostScriptString)>) -> (r: Result<CharStrings, PostScriptError>)
        ensures
            (forall|i: int| 0 <= i < entries@.len() ==> spec_charstring(#[trigger] entries@[i].1@) is Ok) ==> r is Ok,
            match r {
                Ok(cs) => cs.well_formed() && spec_from_dict(entries_view(entries@)) == Ok::<
                    Map<Seq<u8>, Seq<CharStringElement>>,
                    PostScriptError,
                >(cs.view_map()),
                Err(e) => spec_from_dict(entries_view(entries@)) == Err::<
                    Map<Seq<u8>, Seq<CharStringElement>>,
                    PostScriptError,
                >(e),
            },
    {
        let ghost all = entries_view(entries@);
        let mut char_strings = CharStrings::new();
        let mut i: usize = 0;
        while i < entries.len()
            invariant
                i <= entries@.len(),
                all == entries_view(entries@),
                char_strings.well_formed(),
                spec_from_dict(all.take(i as int)) == Ok::<Map<Seq<u8>, Seq<CharStringElement>>, PostScriptError>(
                    char_strings.view_map(),
                ),
            decreases entries@.len() - i,
        {
            let name = PostScriptString::from_bytes(vstd::slice::slice_to_vec(entries[i].0.as_bytes()));
            let encrypted = entries[i].1.as_bytes();
            proof {
                assert(all[i as int] == (entries@[i as int].0@, entries@[i as int].1@));
                lemma_from_dict_take(all, i as int);
            }
            match CharString::parse(encrypted) {
                Ok(char_string) => {
                    char_strings.insert(name, char_string);
                },
                Err(e) => {
                    proof {
                        lemma_from_dict_err(all, i + 1);
                    }
                    return Err(e);
                },
            }
            i = i + 1;
        }
        assert(all.take(i as int) =~= all);
        Ok(char_strings)
    }

    /// Adds the charstring for `name`, replacing any earlier one.
    pub fn insert(&mut self, name: PostScriptString, char_string: CharString)
        requires
            old(self).well_formed(),
        ensures
            final(self).well_formed(),
            final(self).view_map() == old(self).view_map().insert(name@, char_string@),
    {
        let ghost old_map = self.view_map();
        let ghost k = name@;
        let ghost p = char_string@;
        match self.position(name.as_bytes()) {
            Some(i) => {
                let ghost old_entries = self.entries@;
                self.entries.set(i, (name, char_string));
                proof {
                    assert(self.names() =~= old(self).names());
                    assert forall|a: int, b: int| 0 <= a < b < self.entries@.len() implies
                        #[trigger] self.entries@[a].0@ != #[trigger] self.entries@[b].0@ by {
                        assert(self.names()[a] == self.entries@[a].0@);
                        assert(self.names()[b] == self.entries@[b].0@);
                        assert(old(self).names()[a] == old_entries[a].0@);
                        assert(old(self).names()[b] == old_entries[b].0@);
                    }
                    assert(self.programs() =~= old(self).programs().update(i as int, p));
                    assert forall|key: Seq<u8>| #[trigger] self.view_map().dom().contains(key)
                        == old_map.insert(k, p).dom().contains(key) by {
                        if old_map.insert(k, p).dom().contains(key) && key != k {
                            let j = choose|j: int| 0 <= j < old(self).names().len() && old(self).names()[j] == key;
                            assert(self.names()[j] == key);
                        }
                    }
                    assert forall|key: Seq<u8>| #[trigger] self.view_map().dom().contains(key)
                        implies self.view_map()[key] == old_map.insert(k, p)[key] by {
                        let j = choose|j: int| 0 <= j < self.names().len() && self.names()[j] == key;
                        lemma_view_map_at(self, j);
                        lemma_view_map_at(old(self), j);
                    }
                    assert(self.view_map() =~= old_map.insert(k, p));
                }
            },
            None => {
                let ghost old_entries = self.entries@;
                self.entries.push((name, char_string));
                proof {
                    assert(self.names() =~= old(self).names().push(k));
                    assert(self.programs() =~= old(self).programs().push(p));
                    assert forall|a: int, b: int| 0 <= a < b < self.entries@.len() implies
                        #[trigger] self.entries@[a].0@ != #[trigger] self.entries@[b].0@ by {
                        assert(self.names()[a] == self.entries@[a].0@);
                        assert(self.names()[b] == self.entries@[b].0@);
                        if b < old_entries.len() {
                            assert(old(self).names()[a] == old_entries[a].0@);
                            assert(old(self).names()[b] == old_entries[b].0@);
                        } else {
                            assert(old(self).names()[a] == old_entries[a].0@);
                        }
                    }
                    assert forall|key: Seq<u8>| #[trigger] self.view_map().dom().contains(key)
                        == old_map.insert(k, p).dom().contains(key) by {
                        if old_map.insert(k, p).dom().contains(key) && key != k {
                            let j = choose|j: int| 0 <= j < old(self).names().len() && old(self).names()[j] == key;
                            assert(self.names()[j] == key);
                        }
                        if key == k {
                            assert(self.names()[old_entries.len() as int] == key);
                        }
                    }
                    assert forall|key: Seq<u8>| #[trigger] self.view_map().dom().contains(key)
                        implies self.view_map()[key] == old_map.insert(k, p)[key] by {
                        let j = choose|j: int| 0 <= j < self.names().len() && self.names()[j] == key;
                        lemma_view_map_at(self, j);
                        if j < old_entries.len() {
                            lemma_view_map_at(old(self), j);
                        }
                    }
                    assert(self.view_map() =~= old_map.insert(k, p));
                }
            },
        }
    }

    /// The charstring stored under `name`, if any
    fn lookup(&self, name: &[u8]) -> (r: Option<&CharString>)
        requires
            self.well_formed(),
        ensures
            match r {
                Some(c) => self.view_map().dom().contains(name@) && c@ == self.view_map()[name@],
                None => !self.view_map().dom().contains(name@),
            },
    {
        match self.position(name) {
            Some(i) => {
                proof {
                    lemma_view_map_at(self, i as int);
                }
                Some(&self.entries[i].1)
            },
            None => None,
        }
    }

    /// The charstring of the glyph `s`; that of `.notdef` when the font has
    /// none for `s`.
    pub fn from_string(&self, s: &PostScriptString) -> (r: Option<&CharString>)
        requires
            self.well_formed(),
        ensures
            self.view_map().dom().contains(s@) ==> r is Some && r->Some_0@ == self.view_map()[s@],
            !self.view_map().dom().contains(s@) && self.view_map().dom().contains(notdef_name())
                ==> r is Some && r->Some_0@ == self.view_map()[notdef_name()],
            !self.view_map().dom().contains(s@) && !self.view_map().dom().contains(notdef_name())
                ==> r is None,
    {
        match self.lookup(s.as_bytes()) {
            Some(c) => Some(c),
            None => {
                let notdef = Encoding::not_def();
                self.lookup(notdef.as_bytes())
            },
        }
    }

    /// Whether the font has a charstring named by the single byte `c`
    pub fn is_codepoint_defined(&self, c: u8) -> (r: bool)
        requires
            self.well_formed(),
        ensures
            r == self.view_map().dom().contains(seq![c]),
    {
        let mut name: Vec<u8> = Vec::new();
        name.push(c);
        assert(name@ =~= seq![c]);
        self.lookup(name.as_slice()).is_some()
    }
}

/// After `insert(name, c)`, `from_string(name)` finds `c`: the map view of
/// the charstrings holds `c` under `name`.
pub proof fn lemma_lookup_after_insert(
    before: Map<Seq<u8>, Seq<CharStringElement>>,
    after: Map<Seq<u8>, Seq<CharStringElement>>,
    name: Seq<u8>,
    program: Seq<CharStringElement>,
    other: Seq<u8>,
)
    requires
        after == before.insert(name, program),
    ensures
        after.dom().contains(name),
        after[name] == program,
        other != name ==> (after.dom().contains(other) == before.dom().contains(other)),
        other != name && before.dom().contains(other) ==> after[other] == before[other],
{
}

/// The position of the entry `i` in the map view of `cs`
pub proof fn lemma_view_map_at(cs: &CharStrings, i: int)
    requires
        cs.well_formed(),
        0 <= i < cs.names().len(),
    ensures
        cs.view_map().dom().contains(cs.names()[i]),
        cs.view_map()[cs.names()[i]] == cs.programs()[i],
{
    let k = cs.names()[i];
    assert(cs.view_map().dom().contains(k));
    let j = choose|j: int| 0 <= j < cs.names().len() && cs.names()[j] == k;
    assert(cs.entries@[i].0@ == k);
    assert(cs.entries@[j].0@ == k);
}

} // verus!
