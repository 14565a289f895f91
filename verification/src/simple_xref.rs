//! A reader for classic cross-reference tables whose entries record the
//! entry kind beside the offset, over a borrowed file buffer.

use std::collections::HashMap;

use vstd::prelude::*;

use crate::error::{ParseError, ENTRY_KIND_BYTES, SECTION_END_BYTES};
use crate::lex::{
    decimal_value, digits_end,     is_digit, matches_at, next_matches, peek_byte, read_number, skip_whitespace, skip_ws, spec_eol,
    expect_eol, spec_number,
};
use crate::objects::Reference;
use crate::xref::parser::{
    find_start_xref, spec_find_start_xref, spec_start_xref, spec_xref_keyword, start_xref_bytes,
    xref_keyword_bytes,
};

verus! {

broadcast use vstd::std_specs::hash::group_hash_axioms;

/// The cross-reference table contains information that permits random access
/// to indirect objects within the file so that the entire file need not be
/// read to locate any particular object
#[derive(Debug)]
pub struct Xref {
    pub objects: HashMap<usize, XrefEntry>,
}

/// One line of a cross-reference table
#[derive(Debug, Clone, Copy, PartialEq, Eq, Structural)]
pub struct XrefEntry {
    pub byte_offset: usize,
    pub generation: u16,
    pub kind: EntryKind,
}

/// Whether an entry describes a free object (`f`) or one in use (`n`)
#[derive(Debug, Clone, Copy, PartialEq, Eq, Structural)]
pub enum EntryKind {
    Free,
    InUse,
}

impl View for Xref {
    type V = Map<usize, XrefEntry>;

    open spec fn view(&self) -> Map<usize, XrefEntry> {
        self.objects@
    }
}

/// The entry kind that the byte `b` stands for
pub open spec fn spec_entry_kind(b: u8) -> Result<EntryKind, ParseError> {
    if b == 102u8 {
        Ok(EntryKind::Free)
    } else if b == 110u8 {
        Ok(EntryKind::InUse)
    } else {
        Err(ParseError::MismatchedByteMany { expected: &ENTRY_KIND_BYTES, found: Some(b) })
    }
}

impl EntryKind {
    /// `f` marks a free entry, `n` an entry in use.
    pub fn from_byte(b: u8) -> (r: Result<EntryKind, ParseError>)
        ensures
            r == spec_entry_kind(b),
            r is Err ==> r->Err_0->MismatchedByteMany_expected@ == seq![102u8, 110u8],
    {
        assert(ENTRY_KIND_BYTES@ =~= seq![102u8, 110u8]);
        match b {
            102u8 => Ok(Self::Free),
            110u8 => Ok(Self::InUse),
            _ => Err(ParseError::MismatchedByteMany { expected: &ENTRY_KIND_BYTES, found: Some(b) }),
        }
    }
}

impl Xref {
    /// The byte offset that the table records for the referenced object
    pub fn get_offset(&self, reference: Reference) -> (r: Option<usize>)
        ensures
            r == (if self@.contains_key(reference.object_number) {
                Some(self@[reference.object_number].byte_offset)
            } else {
                None::<usize>
            }),
    {
        match self.objects.get(&reference.object_number) {
            Some(entry) => Some(entry.byte_offset),
            None => None,
        }
    }
}

/// Reads one entry line at `pos`: offset, generation and kind.
pub open spec fn spec_entry_line(s: Seq<u8>, pos: int) -> Result<(XrefEntry, int), ParseError> {
    match spec_number(s, pos, usize::MAX as nat) {
        None => Err(ParseError::InvalidNumber),
        Some((offset, p1)) => {
            let p2 = skip_ws(s, p1);
            match spec_number(s, p2, u16::MAX as nat) {
                None => Err(ParseError::InvalidNumber),
                Some((generation, p3)) => {
                    let p4 = skip_ws(s, p3);
                    if p4 >= s.len() {
                        Err(ParseError::UnexpectedEof)
                    } else {
                        match spec_entry_kind(s[p4]) {
                            Err(e) => Err(e),
                            Ok(kind) => Ok(
                                (
                                    XrefEntry {
                                        byte_offset: offset as usize,
                                        generation: generation as u16,
                                        kind,
                                    },
                                    skip_ws(s, p4 + 1),
                                ),
                            ),
                        }
                    }
                },
            }
        },
    }
}

/// An entry line `nnnnnnnnnn ggggg k` of a cross-reference table: two
/// decimal numbers and a kind byte, separated by white space. The entry
/// records the first number as byte offset, the second as generation, and
/// the kind `f` as free and `n` as in use; any other kind byte is an error
/// naming it.
pub proof fn lemma_entry_line(s: Seq<u8>, pos: int)
    requires
        0 <= pos <= s.len(),
        pos < digits_end(s, pos),
        decimal_value(s.subrange(pos, digits_end(s, pos))) <= usize::MAX,
        skip_ws(s, digits_end(s, pos)) < digits_end(s, skip_ws(s, digits_end(s, pos))),
        decimal_value(
            s.subrange(skip_ws(s, digits_end(s, pos)), digits_end(s, skip_ws(s, digits_end(s, pos)))),
        ) <= u16::MAX,
        skip_ws(s, digits_end(s, skip_ws(s, digits_end(s, pos)))) < s.len(),
    ensures
        ({
            let e1 = digits_end(s, pos);
            let p2 = skip_ws(s, e1);
            let e3 = digits_end(s, p2);
            let p4 = skip_ws(s, e3);
            let first = decimal_value(s.subrange(pos, e1));
            let second = decimal_value(s.subrange(p2, e3));
            &&& (s[p4] == 102u8 || s[p4] == 110u8) ==> spec_entry_line(s, pos) == Ok::<(XrefEntry, int), ParseError>(
                (
                    XrefEntry {
                        byte_offset: first as usize,
                        generation: second as u16,
                        kind: if s[p4] == 102u8 { EntryKind::Free } else { EntryKind::InUse },
                    },
                    skip_ws(s, p4 + 1),
                ),
            )
            &&& s[p4] != 102u8 && s[p4] != 110u8 ==> spec_entry_line(s, pos) == Err::<(XrefEntry, int), ParseError>(
                ParseError::MismatchedByteMany { expected: &ENTRY_KIND_BYTES, found: Some(s[p4]) },
            )
        }),
{
}

/// Reads `count` entry lines for the object numbers `start`, `start + 1`, ...
pub open spec fn spec_entry_lines(
    s: Seq<u8>,
    pos: int,
    start: nat,
    count: nat,
    m: Map<usize, XrefEntry>,
) -> Result<(Map<usize, XrefEntry>, int), ParseError>
    decreases count,
{
    if count == 0 {
        Ok((m, pos))
    } else {
        match spec_entry_lines(s, pos, start, (count - 1) as nat, m) {
            Err(e) => Err(e),
            Ok((m2, p2)) => match spec_entry_line(s, p2) {
                Err(e) => Err(e),
                Ok((entry, p3)) => if start + count - 1 > usize::MAX {
                    Err(ParseError::IntegerOverflow)
                } else {
                    Ok((m2.insert((start + count - 1) as usize, entry), p3))
                },
            },
        }
    }
}

/// Reads subsections from `pos` on: a first object number, an entry count
/// ended by an end-of-line marker, and the entry lines; then either another
/// subsection (a digit) or the trailer (`t`).
pub open spec fn spec_sections(s: Seq<u8>, pos: int, m: Map<usize, XrefEntry>) -> Result<
    (Map<usize, XrefEntry>, int),
    ParseError,
>
    decreases s.len() - pos,
{
    match spec_number(s, pos, usize::MAX as nat) {
        None => Err(ParseError::InvalidNumber),
        Some((first, p1)) => {
            let p2 = skip_ws(s, p1);
            match spec_number(s, p2, usize::MAX as nat) {
                None => Err(ParseError::InvalidNumber),
                Some((count, p3)) => match spec_eol(s, p3) {
                    None => Err(ParseError::ExpectedEol),
                    Some(p4) => match spec_entry_lines(s, p4, first, count, m) {
                        Err(e) => Err(e),
                        Ok((m2, p5)) => if 0 <= p5 < s.len() && s[p5] == 116u8 {
                            Ok((m2, p5))
                        } else if 0 <= p5 < s.len() && is_digit(s[p5]) {
                            if pos < p5 <= s.len() {
                                spec_sections(s, p5, m2)
                            } else {
                                Err(ParseError::InvalidNumber)
                            }
                        } else {
                            Err(
                                ParseError::MismatchedByteMany {
                                    expected: &SECTION_END_BYTES,
                                    found: if 0 <= p5 < s.len() { Some(s[p5]) } else { None },
                                },
                            )
                        },
                    },
                },
            }
        },
    }
}

/// The position of the `k`-th entry line of a subsection whose first line
/// is at `pos`
pub open spec fn entry_line_at(s: Seq<u8>, pos: int, k: nat) -> int
    decreases k,
{
    if k == 0 {
        pos
    } else {
        match spec_entry_line(s, entry_line_at(s, pos, (k - 1) as nat)) {
            Ok((_, p)) => p,
            Err(_) => entry_line_at(s, pos, (k - 1) as nat),
        }
    }
}

/// The `k`-th entry line of a subsection that starts at object number
/// `start` is stored under object number `start + k`; the entries already
/// in the table keep their object numbers.
pub proof fn lemma_simple_run_entries(s: Seq<u8>, pos: int, start: nat, count: nat, m: Map<usize, XrefEntry>)
    ensures
        spec_entry_lines(s, pos, start, count, m) is Ok ==> spec_entry_lines(s, pos, start, count, m)->Ok_0.1 == entry_line_at(
            s,
            pos,
            count,
        ) && (forall|k: nat|
            k < count ==> #[trigger] spec_entry_line(s, entry_line_at(s, pos, k)) is Ok && spec_entry_lines(
                s,
                pos,
                start,
                count,
                m,
            )->Ok_0.0[(start + k) as usize] == spec_entry_line(s, entry_line_at(s, pos, k))->Ok_0.0 && spec_entry_lines(
                s,
                pos,
                start,
                count,
                m,
            )->Ok_0.0.contains_key((start + k) as usize)) && (forall|key: usize|
            #[trigger] m.contains_key(key) ==> spec_entry_lines(s, pos, start, count, m)->Ok_0.0.contains_key(key)),
    decreases count,
{
    if count > 0 {
        lemma_simple_run_entries(s, pos, start, (count - 1) as nat, m);
        if let Ok((m1, p1)) = spec_entry_lines(s, pos, start, (count - 1) as nat, m) {
            if let Ok((entry, p2)) = spec_entry_line(s, p1) {
                if start + count - 1 <= usize::MAX {
                    let key = (start + count - 1) as usize;
                    let m2 = m1.insert(key, entry);
                    assert(spec_entry_lines(s, pos, start, count, m) == Ok::<(Map<usize, XrefEntry>, int), ParseError>((m2, p2)));
                    assert(entry_line_at(s, pos, count) == p2);
                    assert forall|k: nat| k < count implies #[trigger] spec_entry_line(s, entry_line_at(s, pos, k)) is Ok
                        && m2[(start + k) as usize] == spec_entry_line(s, entry_line_at(s, pos, k))->Ok_0.0 && m2.contains_key(
                        (start + k) as usize,
                    ) by {
                        if k < count - 1 {
                            assert((start + k) as usize != key);
                        }
                    }
                }
            }
        }
    }
}

/// The entries that a table already holds keep their object numbers when
/// more subsections are read into it.
proof fn lemma_simple_sections_keep_keys(s: Seq<u8>, pos: int, m: Map<usize, XrefEntry>)
    ensures
        spec_sections(s, pos, m) is Ok ==> forall|key: usize|
            #[trigger] m.contains_key(key) ==> spec_sections(s, pos, m)->Ok_0.0.contains_key(key),
    decreases s.len() - pos,
{
    if let Some((first, p1)) = spec_number(s, pos, usize::MAX as nat) {
        if let Some((count, p3)) = spec_number(s, skip_ws(s, p1), usize::MAX as nat) {
            if let Some(p4) = spec_eol(s, p3) {
                lemma_simple_run_entries(s, p4, first, count, m);
                if let Ok((m2, p5)) = spec_entry_lines(s, p4, first, count, m) {
                    if 0 <= p5 < s.len() && is_digit(s[p5]) && pos < p5 <= s.len() {
                        lemma_simple_sections_keep_keys(s, p5, m2);
                    }
                }
            }
        }
    }
}

/// Every entry line of the first subsection, whose header `first count`
/// is at `pos`, is stored under the object numbers `first`, `first + 1`,
/// ..., `first + count - 1` of the table read.
pub proof fn lemma_simple_subsection_numbers(s: Seq<u8>, pos: int, m: Map<usize, XrefEntry>)
    ensures
        spec_sections(s, pos, m) is Ok ==> (spec_number(s, pos, usize::MAX as nat) matches Some((first, p1))
            && spec_number(s, skip_ws(s, p1), usize::MAX as nat) matches Some((count, _)) ==> forall|k: nat|
            k < count ==> #[trigger] spec_sections(s, pos, m)->Ok_0.0.contains_key((first + k) as usize)),
{
    if let Some((first, p1)) = spec_number(s, pos, usize::MAX as nat) {
        if let Some((count, p3)) = spec_number(s, skip_ws(s, p1), usize::MAX as nat) {
            if let Some(p4) = spec_eol(s, p3) {
                lemma_simple_run_entries(s, p4, first, count, m);
                if let Ok((m2, p5)) = spec_entry_lines(s, p4, first, count, m) {
                    assert forall|k: nat| k < count implies #[trigger] m2.contains_key((first + k) as usize) by {
                        assert(spec_entry_line(s, entry_line_at(s, p4, k)) is Ok);
                    }
                    if 0 <= p5 < s.len() && is_digit(s[p5]) && pos < p5 <= s.len() && !(s[p5] == 116u8)
                        && spec_sections(s, pos, m) is Ok {
                        lemma_simple_sections_keep_keys(s, p5, m2);
                        assert(spec_sections(s, pos, m) == spec_sections(s, p5, m2));
                        assert forall|k: nat| k < count implies #[trigger] spec_sections(s, pos, m)->Ok_0.0.contains_key(
                            (first + k) as usize,
                        ) by {
                            assert(m2.contains_key((first + k) as usize));
                        }
                    }
                }
            }
        }
    }
}

/// The table at `pos`, which starts with the keyword `xref`, and the position
/// of the trailer after it
pub open spec fn spec_lex_xref(s: Seq<u8>, pos: int) -> Result<(Map<usize, XrefEntry>, int), ParseError> {
    if !matches_at(s, pos, spec_xref_keyword()) {
        Err(ParseError::MismatchedBytes)
    } else {
        spec_sections(s, skip_ws(s, pos + 4), Map::empty())
    }
}

/// The table named by the last `startxref` keyword of the file
pub open spec fn spec_simple_read_xref(s: Seq<u8>) -> Result<(Map<usize, XrefEntry>, int), ParseError> {
    match spec_find_start_xref(s) {
        None => Err(ParseError::StartXrefNotFound),
        Some(idx) => {
            let p = skip_ws(s, idx + 9);
            match spec_number(s, p, usize::MAX as nat) {
                None => Err(ParseError::InvalidNumber),
                Some((xref_pos, _)) => spec_lex_xref(s, xref_pos as int),
            }
        },
    }
}

proof fn lemma_entry_line_advances(s: Seq<u8>, pos: int)
    requires
        0 <= pos <= s.len(),
    ensures
        spec_entry_line(s, pos) matches Ok((_, p)) ==> pos < p <= s.len(),
{
    crate::lex::lemma_digits_end_bounds(s, pos);
    if let Some((_, p1)) = spec_number(s, pos, usize::MAX as nat) {
        crate::lex::lemma_skip_ws_bounds(s, p1);
        let p2 = skip_ws(s, p1);
        crate::lex::lemma_digits_end_bounds(s, p2);
        if let Some((_, p3)) = spec_number(s, p2, u16::MAX as nat) {
            crate::lex::lemma_skip_ws_bounds(s, p3);
            let p4 = skip_ws(s, p3);
            if p4 < s.len() {
                crate::lex::lemma_skip_ws_bounds(s, p4 + 1);
            }
        }
    }
}

proof fn lemma_entry_lines_err(
    s: Seq<u8>,
    pos: int,
    start: nat,
    a: nat,
    b: nat,
    m: Map<usize, XrefEntry>,
    e: ParseError,
)
    requires
        a <= b,
        spec_entry_lines(s, pos, start, a, m) == Err::<(Map<usize, XrefEntry>, int), ParseError>(e),
    ensures
        spec_entry_lines(s, pos, start, b, m) == Err::<(Map<usize, XrefEntry>, int), ParseError>(e),
    decreases b,
{
    if a < b {
        lemma_entry_lines_err(s, pos, start, a, (b - 1) as nat, m, e);
    }
}

/// Reads one entry line at `pos`.
fn lex_entry_line(file: &[u8], pos: usize) -> (r: Result<(XrefEntry, usize), ParseError>)
    requires
        pos <= file@.len(),
    ensures
        match r {
            Ok((e, p)) => spec_entry_line(file@, pos as int) == Ok::<(XrefEntry, int), ParseError>((e, p as int))
                && p <= file@.len(),
            Err(err) => spec_entry_line(file@, pos as int) == Err::<(XrefEntry, int), ParseError>(err),
        },
{
    let (offset, p1) = match read_number(file, pos, usize::MAX as u64) {
        Ok(v) => v,
        Err(e) => {
            return Err(e);
        },
    };
    let p2 = skip_whitespace(file, p1);
    let (generation, p3) = match read_number(file, p2, u16::MAX as u64) {
        Ok(v) => v,
        Err(e) => {
            return Err(e);
        },
    };
    let p4 = skip_whitespace(file, p3);
    if p4 >= file.len() {
        return Err(ParseError::UnexpectedEof);
    }
    let kind = match EntryKind::from_byte(file[p4]) {
        Ok(k) => k,
        Err(e) => {
            return Err(e);
        },
    };
    let p5 = skip_whitespace(file, p4 + 1);
    assert((offset as nat) as usize == offset as usize);
    assert((generation as nat) as u16 == generation as u16);
    Ok((XrefEntry { byte_offset: offset as usize, generation: generation as u16, kind }, p5))
}

/// Reads `count` entry lines at `pos`, adding them to `objects`.
fn lex_entry_lines(
    file: &[u8],
    pos: usize,
    start: usize,
    count: usize,
    objects: &mut HashMap<usize, XrefEntry>,
) -> (r: Result<usize, ParseError>)
    requires
        pos <= file@.len(),
    ensures
        match r {
            Ok(p) => spec_entry_lines(file@, pos as int, start as nat, count as nat, old(objects)@)
                == Ok::<(Map<usize, XrefEntry>, int), ParseError>((final(objects)@, p as int))
                && pos <= p <= file@.len(),
            Err(e) => spec_entry_lines(file@, pos as int, start as nat, count as nat, old(objects)@)
                == Err::<(Map<usize, XrefEntry>, int), ParseError>(e),
        },
{
    let ghost s = file@;
    let ghost m0 = objects@;
    let mut i: usize = 0;
    let mut p = pos;
    while i < count
        invariant
            s == file@,
            m0 == old(objects)@,
            pos <= p <= s.len(),
            i <= count,
            spec_entry_lines(s, pos as int, start as nat, i as nat, m0) == Ok::<(Map<usize, XrefEntry>, int), ParseError>(
                (objects@, p as int),
            ),
        decreases count - i,
    {
        let (entry, next) = match lex_entry_line(file, p) {
            Ok(v) => v,
            Err(e) => {
                proof {
                    lemma_entry_lines_err(s, pos as int, start as nat, (i + 1) as nat, count as nat, m0, e);
                }
                return Err(e);
            },
        };
        proof {
            lemma_entry_line_advances(s, p as int);
        }
        if start > usize::MAX - i {
            proof {
                lemma_entry_lines_err(s, pos as int, start as nat, (i + 1) as nat, count as nat, m0, ParseError::IntegerOverflow);
            }
            return Err(ParseError::IntegerOverflow);
        }
        objects.insert(i + start, entry);
        p = next;
        i = i + 1;
    }
    Ok(p)
}

/// Reads a cross-reference table from a borrowed file
pub struct XrefParser<'a> {
    file: &'a [u8],
    pos: usize,
}

impl<'a> XrefParser<'a> {
    pub closed spec fn file_view(&self) -> Seq<u8> {
        self.file@
    }

    pub closed spec fn pos_view(&self) -> int {
        self.pos as int
    }

    pub fn new(file: &'a [u8]) -> (r: Self)
        ensures
            r.file_view() == file@,
            r.pos_view() == 0,
    {
        Self { file, pos: 0 }
    }

    /// Finds the last `startxref` keyword of the file, reading backwards from
    /// its end, and reads the table at the offset that follows it; returns
    /// the table and the position of the trailer after it.
    pub fn read_xref(&mut self) -> (r: Result<(Xref, usize), ParseError>)
        ensures
            final(self).file_view() == old(self).file_view(),
            match r {
                Ok((x, p)) => spec_simple_read_xref(old(self).file_view()) == Ok::<(Map<usize, XrefEntry>, int), ParseError>(
                    (x@, p as int),
                ) && final(self).pos_view() == p,
                Err(e) => spec_simple_read_xref(old(self).file_view()) == Err::<(Map<usize, XrefEntry>, int), ParseError>(e),
            },
    {
        let idx = match find_start_xref(self.file) {
            Some(i) => i,
            None => {
                return Err(ParseError::StartXrefNotFound);
            },
        };
        let sig = start_xref_bytes();
        let flen = self.file.len();
        if !next_matches(self.file, idx, &sig) {
            return Err(ParseError::MismatchedBytes);
        }
        self.pos = skip_whitespace(self.file, idx + 9);
        let (xref_pos, _) = match read_number(self.file, self.pos, usize::MAX as u64) {
            Ok(v) => v,
            Err(e) => {
                return Err(e);
            },
        };
        self.pos = xref_pos as usize;
        self.lex_xref()
    }

    /// Reads the table at the cursor, which starts with the keyword `xref`;
    /// returns it with the position of the trailer after it.
    fn lex_xref(&mut self) -> (r: Result<(Xref, usize), ParseError>)
        ensures
            final(self).file_view() == old(self).file_view(),
            match r {
                Ok((x, p)) => spec_lex_xref(old(self).file_view(), old(self).pos as int) == Ok::<(Map<usize, XrefEntry>, int), ParseError>(
                    (x@, p as int),
                ) && final(self).pos_view() == p,
                Err(e) => spec_lex_xref(old(self).file_view(), old(self).pos as int) == Err::<(Map<usize, XrefEntry>, int), ParseError>(e),
            },
    {
        let kw = xref_keyword_bytes();
        let flen = self.file.len();
        let offset = self.pos;
        if !next_matches(self.file, offset, &kw) {
            return Err(ParseError::MismatchedBytes);
        }
        self.pos = skip_whitespace(self.file, offset + 4);
        let mut objects: HashMap<usize, XrefEntry> = HashMap::new();
        let ghost s = self.file@;
        let ghost p0 = self.pos as int;
        assert(spec_lex_xref(s, offset as int) == spec_sections(s, p0, Map::empty()));
        loop
            invariant_except_break
                spec_sections(s, p0, Map::empty()) == spec_sections(s, self.pos as int, objects@),
            invariant
                s == self.file@,
                s == old(self).file_view(),
                self.pos <= s.len(),
                spec_lex_xref(s, offset as int) == spec_sections(s, p0, Map::empty()),
                offset == old(self).pos,
                flen == s.len(),
            ensures
                spec_sections(s, p0, Map::empty()) == Ok::<(Map<usize, XrefEntry>, int), ParseError>((objects@, self.pos as int)),
            decreases s.len() - self.pos,
        {
            let (idx_offset, p1) = match read_number(self.file, self.pos, usize::MAX as u64) {
                Ok(v) => v,
                Err(e) => {
                    return Err(e);
                },
            };
            let p2 = skip_whitespace(self.file, p1);
            let (num_of_entries, p3) = match read_number(self.file, p2, usize::MAX as u64) {
                Ok(v) => v,
                Err(e) => {
                    return Err(e);
                },
            };
            let p4 = match expect_eol(self.file, p3) {
                Ok(p) => p,
                Err(e) => {
                    return Err(e);
                },
            };
            let p5 = match lex_entry_lines(self.file, p4, idx_offset as usize, num_of_entries as usize, &mut objects) {
                Ok(v) => v,
                Err(e) => {
                    return Err(e);
                },
            };
            self.pos = p5;
            match peek_byte(self.file, self.pos) {
                Some(116u8) => {
                    break;
                },
                Some(b) => {
                    if b >= 48 && b <= 57 {
                        continue;
                    } else {
                        return Err(ParseError::MismatchedByteMany { expected: &SECTION_END_BYTES, found: Some(b) });
                    }
                },
                None => {
                    return Err(ParseError::MismatchedByteMany { expected: &SECTION_END_BYTES, found: None });
                },
            }
        }
        Ok((Xref { objects }, self.pos))
    }
}

} // verus!
