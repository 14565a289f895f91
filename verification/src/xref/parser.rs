//! Locating and reading the cross-reference table of a PDF file.

use std::collections::HashMap;

use vstd::prelude::*;

use crate::error::{ParseError, ENTRY_KIND_BYTES, SECTION_END_BYTES};
use crate::lex::{
    decimal_value, digits_end,     expect_bytes, is_digit, matches_at, next_byte_err, next_matches, peek_byte, read_number,
    skip_whitespace, skip_ws, spec_number,
};
use crate::xref::{Xref, XrefEntry};

verus! {

broadcast use vstd::std_specs::hash::group_hash_axioms;

/// The keyword `startxref`
pub open spec fn spec_start_xref() -> Seq<u8> {
    seq![115u8, 116u8, 97u8, 114u8, 116u8, 120u8, 114u8, 101u8, 102u8]
}

/// The keyword `xref`
pub open spec fn spec_xref_keyword() -> Seq<u8> {
    seq![120u8, 114u8, 101u8, 102u8]
}

pub(crate) fn start_xref_bytes() -> (r: [u8; 9])
    ensures
        r@ == spec_start_xref(),
{
    let r: [u8; 9] = [115, 116, 97, 114, 116, 120, 114, 101, 102];
    assert(r@ =~= spec_start_xref());
    r
}

pub(crate) fn xref_keyword_bytes() -> (r: [u8; 4])
    ensures
        r@ == spec_xref_keyword(),
{
    let r: [u8; 4] = [120, 114, 101, 102];
    assert(r@ =~= spec_xref_keyword());
    r
}

/// The last occurrence of `startxref` that starts at or before `i`
pub open spec fn spec_last_match(s: Seq<u8>, i: int) -> Option<int>
    decreases i + 1,
{
    if i < 0 {
        None
    } else if matches_at(s, i, spec_start_xref()) {
        Some(i)
    } else {
        spec_last_match(s, i - 1)
    }
}

/// The last occurrence of `startxref` in the file, found by reading
/// backwards from its end
pub open spec fn spec_find_start_xref(s: Seq<u8>) -> Option<int> {
    spec_last_match(s, s.len() - 9)
}

/// The search from `i` backwards finds the last occurrence at or before `i`,
/// or finds none when there is none.
proof fn lemma_last_match(s: Seq<u8>, i: int)
    ensures
        spec_last_match(s, i) matches Some(k) ==> k <= i && matches_at(s, k, spec_start_xref())
            && forall|j: int| k < j <= i ==> !matches_at(s, j, spec_start_xref()),
        spec_last_match(s, i) is None ==> forall|j: int| j <= i ==> !matches_at(s, j, spec_start_xref()),
    decreases i + 1,
{
    if i >= 0 && !matches_at(s, i, spec_start_xref()) {
        lemma_last_match(s, i - 1);
    }
}

/// `spec_find_start_xref` is the last occurrence of `startxref` in the file.
pub proof fn lemma_find_start_xref_is_last(s: Seq<u8>)
    ensures
        spec_find_start_xref(s) matches Some(k) ==> matches_at(s, k, spec_start_xref())
            && forall|j: int| k < j ==> !matches_at(s, j, spec_start_xref()),
        spec_find_start_xref(s) is None ==> forall|j: int| !matches_at(s, j, spec_start_xref()),
{
    lemma_last_match(s, s.len() - 9);
    assert(spec_start_xref().len() == 9);
}

/// Reads one line of a cross-reference subsection at `pos`: a ten-digit
/// offset (or next free object), a generation number and an entry kind.
pub open spec fn spec_table_entry(s: Seq<u8>, pos: int) -> Result<(XrefEntry, int), ParseError> {
    match spec_number(s, pos, usize::MAX as nat) {
        None => Err(ParseError::InvalidNumber),
        Some((offset, p1)) => {
            let p2 = skip_ws(s, p1);
            match spec_number(s, p2, u16::MAX as nat) {
                None => Err(ParseError::InvalidNumber),
                Some((generation, p3)) => {
                    let p4 = skip_ws(s, p3);
                    if p4 >= s.len() {
                        Err(ParseError::UnexpectedEof)
                    } else {
                        let p5 = skip_ws(s, p4 + 1);
                        if s[p4] == 102u8 {
                            Ok(
                                (
                                    XrefEntry::Free {
                                        next_free_object: offset as u64,
                                        generation_number: generation as u16,
                                    },
                                    p5,
                                ),
                            )
                        } else if s[p4] == 110u8 {
                            Ok(
                                (
                                    XrefEntry::InUse {
                                        byte_offset: offset as usize,
                                        generation_number: generation as u16,
                                    },
                                    p5,
                                ),
                            )
                        } else {
                            Err(ParseError::MismatchedByteMany { expected: &ENTRY_KIND_BYTES, found: Some(s[p4]) })
                        }
                    }
                },
            }
        },
    }
}

/// An entry line `nnnnnnnnnn ggggg k` of a cross-reference table: two
/// decimal numbers and a kind byte, separated by white space. A line of kind
/// `f` is a free entry whose next free object is the first number and whose
/// generation is the second; a line of kind `n` is an entry in use at the
/// byte offset given by the first number, with the second as generation; any
/// other kind byte is an error naming it.
pub proof fn lemma_table_entry_line(s: Seq<u8>, pos: int)
    requires
        0 <= pos <= s.len(),
        pos < digits_end(s, pos),
        decimal_value(s.subrange(pos, digits_end(s, pos))) <= usize::MAX,
        skip_ws(s, digits_end(s, pos)) < digits_end(s, skip_ws(s, digits_end(s, pos))),
        decimal_value(
            s.subrange(skip_ws(s, digits_end(s, pos)), digits_end(s, skip_ws(s, digits_end(s, pos)))),
        ) <= u16::MAX,
        skip_ws(s, digits_end(s, skip_ws(s, digits_end(s, pos)))) < s.len(),
    ensures
        ({
            let e1 = digits_end(s, pos);
            let p2 = skip_ws(s, e1);
            let e3 = digits_end(s, p2);
            let p4 = skip_ws(s, e3);
            let first = decimal_value(s.subrange(pos, e1));
            let second = decimal_value(s.subrange(p2, e3));
            &&& s[p4] == 102u8 ==> spec_table_entry(s, pos) == Ok::<(XrefEntry, int), ParseError>(
                (XrefEntry::Free { next_free_object: first as u64, generation_number: second as u16 }, skip_ws(s, p4 + 1)),
            )
            &&& s[p4] == 110u8 ==> spec_table_entry(s, pos) == Ok::<(XrefEntry, int), ParseError>(
                (XrefEntry::InUse { byte_offset: first as usize, generation_number: second as u16 }, skip_ws(s, p4 + 1)),
            )
            &&& s[p4] != 102u8 && s[p4] != 110u8 ==> spec_table_entry(s, pos) == Err::<(XrefEntry, int), ParseError>(
                ParseError::MismatchedByteMany { expected: &ENTRY_KIND_BYTES, found: Some(s[p4]) },
            )
        }),
{
}

/// Reads `count` entry lines for the object numbers `start`, `start + 1`, ...
pub open spec fn spec_table_run(
    s: Seq<u8>,
    pos: int,
    start: nat,
    count: nat,
    m: Map<usize, XrefEntry>,
) -> Result<(Map<usize, XrefEntry>, int), ParseError>
    decreases count,
{
    if count == 0 {
        Ok((m, pos))
    } else {
        match spec_table_run(s, pos, start, (count - 1) as nat, m) {
            Err(e) => Err(e),
            Ok((m2, p2)) => match spec_table_entry(s, p2) {
                Err(e) => Err(e),
                Ok((entry, p3)) => if start + count - 1 > usize::MAX {
                    Err(ParseError::IntegerOverflow)
                } else {
                    Ok((m2.insert((start + count - 1) as usize, entry), p3))
                },
            },
        }
    }
}

/// Reads subsections from `pos` on: each is a first object number, an entry
/// count and the entry lines. After a subsection comes either another one
/// (a digit) or the trailer (`t`), where reading stops.
pub open spec fn spec_subsections(s: Seq<u8>, pos: int, m: Map<usize, XrefEntry>) -> Result<
    (Map<usize, XrefEntry>, int),
    ParseError,
>
    decreases s.len() - pos,
{
    match spec_number(s, pos, usize::MAX as nat) {
        None => Err(ParseError::InvalidNumber),
        Some((first, p1)) => {
            let p2 = skip_ws(s, p1);
            match spec_number(s, p2, usize::MAX as nat) {
                None => Err(ParseError::InvalidNumber),
                Some((count, p3)) => {
                    let p4 = skip_ws(s, p3);
                    match spec_table_run(s, p4, first, count, m) {
                        Err(e) => Err(e),
                        Ok((m2, p5)) => if 0 <= p5 < s.len() && s[p5] == 116u8 {
                            Ok((m2, p5))
                        } else if 0 <= p5 < s.len() && is_digit(s[p5]) {
                            if pos < p5 <= s.len() {
                                spec_subsections(s, p5, m2)
                            } else {
                                Err(ParseError::InvalidNumber)
                            }
                        } else {
                            Err(
                                ParseError::MismatchedByteMany {
                                    expected: &SECTION_END_BYTES,
                                    found: if 0 <= p5 < s.len() { Some(s[p5]) } else { None },
                                },
                            )
                        },
                    }
                },
            }
        },
    }
}

/// The position of the `k`-th entry line of a subsection whose first line
/// is at `pos`
pub open spec fn table_line_at(s: Seq<u8>, pos: int, k: nat) -> int
    decreases k,
{
    if k == 0 {
        pos
    } else {
        match spec_table_entry(s, table_line_at(s, pos, (k - 1) as nat)) {
            Ok((_, p)) => p,
            Err(_) => table_line_at(s, pos, (k - 1) as nat),
        }
    }
}

/// The `k`-th entry line of a subsection that starts at object number
/// `start` is stored under object number `start + k`; the entries already
/// in the table keep their object numbers.
pub proof fn lemma_table_run_entries(s: Seq<u8>, pos: int, start: nat, count: nat, m: Map<usize, XrefEntry>)
    ensures
        spec_table_run(s, pos, start, count, m) is Ok ==> spec_table_run(s, pos, start, count, m)->Ok_0.1 == table_line_at(
            s,
            pos,
            count,
        ) && (forall|k: nat|
            k < count ==> #[trigger] spec_table_entry(s, table_line_at(s, pos, k)) is Ok && spec_table_run(
                s,
                pos,
                start,
                count,
                m,
            )->Ok_0.0[(start + k) as usize] == spec_table_entry(s, table_line_at(s, pos, k))->Ok_0.0 && spec_table_run(
                s,
                pos,
                start,
                count,
                m,
            )->Ok_0.0.contains_key((start + k) as usize)) && (forall|key: usize|
            #[trigger] m.contains_key(key) ==> spec_table_run(s, pos, start, count, m)->Ok_0.0.contains_key(key)),
    decreases count,
{
    if count > 0 {
        lemma_table_run_entries(s, pos, start, (count - 1) as nat, m);
        if let Ok((m1, p1)) = spec_table_run(s, pos, start, (count - 1) as nat, m) {
            if let Ok((entry, p2)) = spec_table_entry(s, p1) {
                if start + count - 1 <= usize::MAX {
                    let key = (start + count - 1) as usize;
                    let m2 = m1.insert(key, entry);
                    assert(spec_table_run(s, pos, start, count, m) == Ok::<(Map<usize, XrefEntry>, int), ParseError>((m2, p2)));
                    assert(table_line_at(s, pos, count) == p2);
                    assert forall|k: nat| k < count implies #[trigger] spec_table_entry(s, table_line_at(s, pos, k)) is Ok
                        && m2[(start + k) as usize] == spec_table_entry(s, table_line_at(s, pos, k))->Ok_0.0 && m2.contains_key(
                        (start + k) as usize,
                    ) by {
                        if k < count - 1 {
                            assert((start + k) as usize != key);
                        }
                    }
                }
            }
        }
    }
}

/// The entries that a table already holds keep their object numbers when
/// more subsections are read into it.
proof fn lemma_table_sections_keep_keys(s: Seq<u8>, pos: int, m: Map<usize, XrefEntry>)
    ensures
        spec_subsections(s, pos, m) is Ok ==> forall|key: usize|
            #[trigger] m.contains_key(key) ==> spec_subsections(s, pos, m)->Ok_0.0.contains_key(key),
    decreases s.len() - pos,
{
    if let Some((first, p1)) = spec_number(s, pos, usize::MAX as nat) {
        if let Some((count, p3)) = spec_number(s, skip_ws(s, p1), usize::MAX as nat) {
            let p4 = skip_ws(s, p3);
            lemma_table_run_entries(s, p4, first, count, m);
            if let Ok((m2, p5)) = spec_table_run(s, p4, first, count, m) {
                if 0 <= p5 < s.len() && is_digit(s[p5]) && pos < p5 <= s.len() {
                    lemma_table_sections_keep_keys(s, p5, m2);
                }
            }
        }
    }
}

/// Every entry line of the first subsection, whose header `first count`
/// is at `pos`, is stored under the object numbers `first`, `first + 1`,
/// ..., `first + count - 1` of the table read.
pub proof fn lemma_table_subsection_numbers(s: Seq<u8>, pos: int, m: Map<usize, XrefEntry>)
    ensures
        spec_subsections(s, pos, m) is Ok ==> (spec_number(s, pos, usize::MAX as nat) matches Some((first, p1))
            && spec_number(s, skip_ws(s, p1), usize::MAX as nat) matches Some((count, _)) ==> forall|k: nat|
            k < count ==> #[trigger] spec_subsections(s, pos, m)->Ok_0.0.contains_key((first + k) as usize)),
{
    if let Some((first, p1)) = spec_number(s, pos, usize::MAX as nat) {
        if let Some((count, p3)) = spec_number(s, skip_ws(s, p1), usize::MAX as nat) {
            let p4 = skip_ws(s, p3);
            lemma_table_run_entries(s, p4, first, count, m);
            if let Ok((m2, p5)) = spec_table_run(s, p4, first, count, m) {
                assert forall|k: nat| k < count implies #[trigger] m2.contains_key((first + k) as usize) by {
                    assert(spec_table_entry(s, table_line_at(s, p4, k)) is Ok);
                }
                if 0 <= p5 < s.len() && is_digit(s[p5]) && pos < p5 <= s.len() && !(s[p5] == 116u8)
                    && spec_subsections(s, pos, m) is Ok {
                    lemma_table_sections_keep_keys(s, p5, m2);
                    assert(spec_subsections(s, pos, m) == spec_subsections(s, p5, m2));
                    assert forall|k: nat| k < count implies #[trigger] spec_subsections(s, pos, m)->Ok_0.0.contains_key(
                        (first + k) as usize,
                    ) by {
                        assert(m2.contains_key((first + k) as usize));
                    }
                }
            }
        }
    }
}

/// The cross-reference section at `offset`, with the position of the trailer
/// that follows it. A section that does not start with `xref` is a
/// cross-reference stream, which is reported as such.
pub open spec fn spec_parse_xref_at_offset(s: Seq<u8>, offset: int) -> Result<
    (Map<usize, XrefEntry>, int),
    ParseError,
> {
    if !matches_at(s, offset, spec_xref_keyword()) {
        Err(ParseError::XrefStreamAtOffset { offset: offset as usize })
    } else {
        spec_subsections(s, skip_ws(s, offset + 4), Map::empty())
    }
}

/// The cross-reference section named by the last `startxref` keyword of the
/// file
pub open spec fn spec_read_xref(s: Seq<u8>) -> Result<(Map<usize, XrefEntry>, int), ParseError> {
    match spec_find_start_xref(s) {
        None => Err(ParseError::StartXrefNotFound),
        Some(idx) => {
            let p = skip_ws(s, idx + 9);
            match spec_number(s, p, usize::MAX as nat) {
                None => Err(ParseError::InvalidNumber),
                Some((xref_pos, _)) => spec_parse_xref_at_offset(s, xref_pos as int),
            }
        },
    }
}

pub proof fn lemma_table_entry_advances(s: Seq<u8>, pos: int)
    requires
        0 <= pos <= s.len(),
    ensures
        spec_table_entry(s, pos) matches Ok((_, p)) ==> pos < p <= s.len(),
{
    crate::lex::lemma_digits_end_bounds(s, pos);
    if let Some((_, p1)) = spec_number(s, pos, usize::MAX as nat) {
        crate::lex::lemma_skip_ws_bounds(s, p1);
        let p2 = skip_ws(s, p1);
        crate::lex::lemma_digits_end_bounds(s, p2);
        if let Some((_, p3)) = spec_number(s, p2, u16::MAX as nat) {
            crate::lex::lemma_skip_ws_bounds(s, p3);
            let p4 = skip_ws(s, p3);
            if p4 < s.len() {
                crate::lex::lemma_skip_ws_bounds(s, p4 + 1);
            }
        }
    }
}

proof fn lemma_table_run_advances(s: Seq<u8>, pos: int, start: nat, count: nat, m: Map<usize, XrefEntry>)
    requires
        0 <= pos <= s.len(),
    ensures
        spec_table_run(s, pos, start, count, m) matches Ok((_, p)) ==> pos <= p <= s.len(),
    decreases count,
{
    if count > 0 {
        lemma_table_run_advances(s, pos, start, (count - 1) as nat, m);
        if let Ok((_, p2)) = spec_table_run(s, pos, start, (count - 1) as nat, m) {
            lemma_table_entry_advances(s, p2);
        }
    }
}

proof fn lemma_table_run_err(
    s: Seq<u8>,
    pos: int,
    start: nat,
    a: nat,
    b: nat,
    m: Map<usize, XrefEntry>,
    e: ParseError,
)
    requires
        a <= b,
        spec_table_run(s, pos, start, a, m) == Err::<(Map<usize, XrefEntry>, int), ParseError>(e),
    ensures
        spec_table_run(s, pos, start, b, m) == Err::<(Map<usize, XrefEntry>, int), ParseError>(e),
    decreases b,
{
    if a < b {
        lemma_table_run_err(s, pos, start, a, (b - 1) as nat, m, e);
    }
}

/// The cross-reference section at the cursor position, and the position of
/// the trailer that follows it
#[derive(Debug)]
pub struct XrefAndTrailer {
    pub xref: Xref,
    pub trailer_offset: usize,
}

/// Reads the cross-reference sections of a whole file
#[derive(Debug)]
pub struct XrefParser {
    file: Vec<u8>,
    pos: usize,
}

/// Reads one entry line at `pos`.
fn lex_table_entry(file: &[u8], pos: usize) -> (r: Result<(XrefEntry, usize), ParseError>)
    requires
        pos <= file@.len(),
    ensures
        match r {
            Ok((e, p)) => spec_table_entry(file@, pos as int) == Ok::<(XrefEntry, int), ParseError>((e, p as int))
                && p <= file@.len(),
            Err(err) => spec_table_entry(file@, pos as int) == Err::<(XrefEntry, int), ParseError>(err),
        },
{
    let (offset, p1) = read_number(file, pos, usize::MAX as u64)?;
    let p2 = skip_whitespace(file, p1);
    let (generation, p3) = read_number(file, p2, u16::MAX as u64)?;
    let p4 = skip_whitespace(file, p3);
    if p4 >= file.len() {
        return Err(ParseError::UnexpectedEof);
    }
    let kind = file[p4];
    let p5 = skip_whitespace(file, p4 + 1);
    if kind == 102 {
        Ok((XrefEntry::Free { next_free_object: offset, generation_number: generation as u16 }, p5))
    } else if kind == 110 {
        Ok((XrefEntry::InUse { byte_offset: offset as usize, generation_number: generation as u16 }, p5))
    } else {
        Err(ParseError::MismatchedByteMany { expected: &ENTRY_KIND_BYTES, found: Some(kind) })
    }
}

/// Reads `count` entry lines at `pos` for the object numbers `start`,
/// `start + 1`, ..., adding them to `objects`; returns the position after them.
fn lex_table_run(
    file: &[u8],
    pos: usize,
    start: usize,
    count: usize,
    objects: &mut HashMap<usize, XrefEntry>,
) -> (r: Result<usize, ParseError>)
    requires
        pos <= file@.len(),
    ensures
        match r {
            Ok(p) => spec_table_run(file@, pos as int, start as nat, count as nat, old(objects)@)
                == Ok::<(Map<usize, XrefEntry>, int), ParseError>((final(objects)@, p as int))
                && pos <= p <= file@.len(),
            Err(e) => spec_table_run(file@, pos as int, start as nat, count as nat, old(objects)@)
                == Err::<(Map<usize, XrefEntry>, int), ParseError>(e),
        },
{
    let ghost s = file@;
    let ghost m0 = objects@;
    let mut i: usize = 0;
    let mut p = pos;
    while i < count
        invariant
            s == file@,
            m0 == old(objects)@,
            pos <= p <= s.len(),
            i <= count,
            spec_table_run(s, pos as int, start as nat, i as nat, m0) == Ok::<(Map<usize, XrefEntry>, int), ParseError>(
                (objects@, p as int),
            ),
        decreases count - i,
    {
        let (entry, next) = match lex_table_entry(file, p) {
            Ok(v) => v,
            Err(e) => {
                proof {
                    lemma_table_run_err(s, pos as int, start as nat, (i + 1) as nat, count as nat, m0, e);
                }
                return Err(e);
            },
        };
        proof {
            lemma_table_entry_advances(s, p as int);
        }
        if start > usize::MAX - i {
            proof {
                lemma_table_run_err(s, pos as int, start as nat, (i + 1) as nat, count as nat, m0, ParseError::IntegerOverflow);
            }
            return Err(ParseError::IntegerOverflow);
        }
        objects.insert(i + start, entry);
        p = next;
        i = i + 1;
    }
    Ok(p)
}

impl XrefParser {
    pub closed spec fn file_view(&self) -> Seq<u8> {
        self.file@
    }

    pub closed spec fn pos_view(&self) -> int {
        self.pos as int
    }

    pub fn new(file: Vec<u8>) -> (r: Self)
        ensures
            r.file_view() == file@,
            r.pos_view() == 0,
    {
        Self { file, pos: 0 }
    }

    /// Finds the last `startxref` keyword of the file, reading backwards from
    /// its end, and reads the section at the offset that follows it.
    pub fn read_xref(&mut self) -> (r: Result<XrefAndTrailer, ParseError>)
        ensures
            final(self).file_view() == old(self).file_view(),
            match r {
                Ok(x) => spec_read_xref(old(self).file_view()) == Ok::<(Map<usize, XrefEntry>, int), ParseError>(
                    (x.xref@, x.trailer_offset as int),
                ) && final(self).pos_view() == x.trailer_offset,
                Err(e) => spec_read_xref(old(self).file_view()) == Err::<(Map<usize, XrefEntry>, int), ParseError>(e),
            },
    {
        let idx = match find_start_xref(&self.file) {
            Some(i) => i,
            None => {
                return Err(ParseError::StartXrefNotFound);
            },
        };
        let sig = start_xref_bytes();
        let flen = self.file.len();
        if !next_matches(&self.file, idx, &sig) {
            return Err(ParseError::MismatchedBytes);
        }
        self.pos = idx + 9;
        self.pos = skip_whitespace(&self.file, self.pos);
        let ghost s = self.file@;
        let (xref_pos, _) = match read_number(&self.file, self.pos, usize::MAX as u64) {
            Ok(v) => v,
            Err(e) => {
                return Err(e);
            },
        };
        self.parse_xref_at_offset(xref_pos as usize)
    }

    /// Reads the cross-reference table at `offset`.
    ///
    /// A section that is not a table (one that does not start with the
    /// keyword `xref`) is a cross-reference stream: the error
    /// `XrefStreamAtOffset` reports where it starts, and its decoded contents
    /// are read by `XrefStreamParser`.
    pub fn parse_xref_at_offset(&mut self, offset: usize) -> (r: Result<XrefAndTrailer, ParseError>)
        ensures
            final(self).file_view() == old(self).file_view(),
            match r {
                Ok(x) => spec_parse_xref_at_offset(old(self).file_view(), offset as int) == Ok::<(Map<usize, XrefEntry>, int), ParseError>(
                    (x.xref@, x.trailer_offset as int),
                ) && final(self).pos_view() == x.trailer_offset,
                Err(e) => spec_parse_xref_at_offset(old(self).file_view(), offset as int) == Err::<(Map<usize, XrefEntry>, int), ParseError>(e),
            },
    {
        self.pos = offset;
        let kw = xref_keyword_bytes();
        let flen = self.file.len();
        if !next_matches(&self.file, self.pos, &kw) {
            return Err(ParseError::XrefStreamAtOffset { offset });
        }
        assert(offset + 4 <= flen);
        self.pos = skip_whitespace(&self.file, offset + 4);
        let mut objects: HashMap<usize, XrefEntry> = HashMap::new();
        let ghost s = self.file@;
        let ghost p0 = self.pos as int;
        assert(s == old(self).file_view());
        assert(spec_parse_xref_at_offset(s, offset as int) == spec_subsections(s, p0, Map::empty()));
        loop
            invariant_except_break
                spec_subsections(s, p0, Map::empty()) == spec_subsections(s, self.pos as int, objects@),
            invariant
                s == self.file@,
                s == old(self).file_view(),
                self.pos <= s.len(),
                spec_parse_xref_at_offset(s, offset as int) == spec_subsections(s, p0, Map::empty()),
            ensures
                spec_subsections(s, p0, Map::empty()) == Ok::<(Map<usize, XrefEntry>, int), ParseError>((objects@, self.pos as int)),
            decreases s.len() - self.pos,
        {
            let ghost pos_before = self.pos as int;
            let (idx_offset, p1) = match read_number(&self.file, self.pos, usize::MAX as u64) {
                Ok(v) => v,
                Err(e) => {
                    return Err(e);
                },
            };
            let p2 = skip_whitespace(&self.file, p1);
            let (num_of_entries, p3) = match read_number(&self.file, p2, usize::MAX as u64) {
                Ok(v) => v,
                Err(e) => {
                    return Err(e);
                },
            };
            let p4 = skip_whitespace(&self.file, p3);
            let p5 = match lex_table_run(&self.file, p4, idx_offset as usize, num_of_entries as usize, &mut objects) {
                Ok(v) => v,
                Err(e) => {
                    return Err(e);
                },
            };
            self.pos = p5;
            match peek_byte(&self.file, self.pos) {
                Some(116u8) => {
                    break;
                },
                Some(b) => {
                    if b >= 48 && b <= 57 {
                        continue;
                    } else {
                        return Err(ParseError::MismatchedByteMany { expected: &SECTION_END_BYTES, found: Some(b) });
                    }
                },
                None => {
                    return Err(ParseError::MismatchedByteMany { expected: &SECTION_END_BYTES, found: None });
                },
            }
        }
        Ok(XrefAndTrailer { xref: Xref { objects }, trailer_offset: self.pos })
    }
}

/// Finds the last `startxref` keyword of the file, reading backwards from
/// its end.
pub(crate) fn find_start_xref(file: &[u8]) -> (r: Option<usize>)
    ensures
        r matches Some(i) ==> spec_find_start_xref(file@) == Some(i as int),
        r is None ==> spec_find_start_xref(file@) is None,
        r matches Some(i) ==> matches_at(file@, i as int, spec_start_xref()) && forall|j: int|
            i < j ==> !matches_at(file@, j, spec_start_xref()),
        r is None ==> forall|j: int| !matches_at(file@, j, spec_start_xref()),
{
    proof {
        lemma_find_start_xref_is_last(file@);
    }
    let sig = start_xref_bytes();
    let len = file.len();
    if len < 9 {
        return None;
    }
    let mut i: usize = len - 9;
    loop
        invariant
            len == file@.len(),
            len >= 9,
            sig@ == spec_start_xref(),
            i <= len - 9,
            spec_find_start_xref(file@) == spec_last_match(file@, i as int),
        decreases i,
    {
        if next_matches(file, i, &sig) {
            proof {
                assert(spec_last_match(file@, i as int) == Some(i as int));
                lemma_find_start_xref_is_last(file@);
            }
            return Some(i);
        }
        if i == 0 {
            proof {
                assert(spec_last_match(file@, -1) is None);
                assert(spec_last_match(file@, 0) is None);
                lemma_find_start_xref_is_last(file@);
            }
            return None;
        }
        assert(spec_last_match(file@, i as int) == spec_last_match(file@, i - 1));
        i = i - 1;
    }
}

} // verus!
