//! Byte-level lexing primitives shared by the PDF parsers.
//!
//! Every primitive works on a byte buffer and a cursor into it, and is
//! described by a spec function over `Seq<u8>`.

use vstd::prelude::*;

use crate::error::ParseError;

verus! {

/// The white-space characters of a PDF file: NUL, HT, LF, FF, CR and SP.
pub open spec fn is_pdf_whitespace(b: u8) -> bool {
    b == 0u8 || b == 9u8 || b == 10u8 || b == 12u8 || b == 13u8 || b == 32u8
}

/// An ASCII decimal digit
pub open spec fn is_digit(b: u8) -> bool {
    48u8 <= b && b <= 57u8
}

/// The first position at or after `pos` that does not hold white space.
pub open spec fn skip_ws(s: Seq<u8>, pos: int) -> int
    decreases s.len() - pos,
{
    if 0 <= pos < s.len() && is_pdf_whitespace(s[pos]) {
        skip_ws(s, pos + 1)
    } else {
        pos
    }
}

/// The first position at or after `pos` that does not hold a digit.
pub open spec fn digits_end(s: Seq<u8>, pos: int) -> int
    decreases s.len() - pos,
{
    if 0 <= pos < s.len() && is_digit(s[pos]) {
        digits_end(s, pos + 1)
    } else {
        pos
    }
}

/// Whether every byte of `s` is a decimal digit
pub open spec fn all_digits(s: Seq<u8>) -> bool {
    forall|i: int| 0 <= i < s.len() ==> is_digit(#[trigger] s[i])
}

/// The value of a string of decimal digits
pub open spec fn decimal_value(s: Seq<u8>) -> nat
    decreases s.len(),
{
    if s.len() == 0 {
        0
    } else {
        decimal_value(s.drop_last()) * 10 + (if is_digit(s.last()) { (s.last() - 48u8) as nat } else { 0 })
    }
}

/// The unsigned number written in decimal in `s[start..end]`, if there is at
/// least one digit and the number is at most `max`.
pub open spec fn spec_parse_decimal(s: Seq<u8>, start: int, end: int, max: nat) -> Option<nat> {
    if start < end && decimal_value(s.subrange(start, end)) <= max {
        Some(decimal_value(s.subrange(start, end)))
    } else {
        None
    }
}

pub proof fn lemma_skip_ws_bounds(s: Seq<u8>, pos: int)
    requires
        0 <= pos <= s.len(),
    ensures
        pos <= skip_ws(s, pos) <= s.len(),
        skip_ws(s, pos) < s.len() ==> !is_pdf_whitespace(s[skip_ws(s, pos)]),
    decreases s.len() - pos,
{
    if pos < s.len() && is_pdf_whitespace(s[pos]) {
        lemma_skip_ws_bounds(s, pos + 1);
    }
}

pub proof fn lemma_digits_end_bounds(s: Seq<u8>, pos: int)
    requires
        0 <= pos <= s.len(),
    ensures
        pos <= digits_end(s, pos) <= s.len(),
        digits_end(s, pos) < s.len() ==> !is_digit(s[digits_end(s, pos)]),
        all_digits(s.subrange(pos, digits_end(s, pos))),
    decreases s.len() - pos,
{
    if pos < s.len() && is_digit(s[pos]) {
        lemma_digits_end_bounds(s, pos + 1);
        let e = digits_end(s, pos);
        assert forall|i: int| 0 <= i < e - pos implies is_digit(#[trigger] s.subrange(pos, e)[i]) by {
            if i > 0 {
                assert(s.subrange(pos, e)[i] == s.subrange(pos + 1, e)[i - 1]);
            }
        }
    }
}

proof fn lemma_decimal_monotone(s: Seq<u8>, i: int)
    requires
        0 <= i <= s.len(),
    ensures
        decimal_value(s.take(i)) <= decimal_value(s),
    decreases s.len() - i,
{
    if i < s.len() {
        lemma_decimal_monotone(s, i + 1);
        assert(s.take(i + 1).drop_last() =~= s.take(i));
        let x = decimal_value(s.take(i));
        assert(x <= x * 10) by (nonlinear_arith)
            requires
                x >= 0,
        ;
    } else {
        assert(s.take(i) =~= s);
    }
}

/// Skipping white space a second time stays where the first time stopped.
pub proof fn lemma_skip_ws_idempotent(s: Seq<u8>, pos: int)
    requires
        0 <= pos <= s.len(),
    ensures
        skip_ws(s, skip_ws(s, pos)) == skip_ws(s, pos),
{
    lemma_skip_ws_bounds(s, pos);
}

/// Skips PDF white space starting at `pos` and returns the position after it.
pub fn skip_whitespace(buf: &[u8], pos: usize) -> (r: usize)
    requires
        pos <= buf@.len(),
    ensures
        r == skip_ws(buf@, pos as int),
        pos <= r <= buf@.len(),
{
    let mut p = pos;
    proof {
        lemma_skip_ws_bounds(buf@, pos as int);
    }
    while p < buf.len() && (buf[p] == 0 || buf[p] == 9 || buf[p] == 10 || buf[p] == 12 || buf[p]
        == 13 || buf[p] == 32)
        invariant
            pos <= p <= buf@.len(),
            skip_ws(buf@, p as int) == skip_ws(buf@, pos as int),
        decreases buf@.len() - p,
    {
        p = p + 1;
    }
    p
}

/// Returns the end of the run of decimal digits that starts at `pos`.
pub fn lex_whole_number(buf: &[u8], pos: usize) -> (r: usize)
    requires
        pos <= buf@.len(),
    ensures
        r == digits_end(buf@, pos as int),
        pos <= r <= buf@.len(),
{
    let mut p = pos;
    proof {
        lemma_digits_end_bounds(buf@, pos as int);
    }
    while p < buf.len() && buf[p] >= 48 && buf[p] <= 57
        invariant
            pos <= p <= buf@.len(),
            digits_end(buf@, p as int) == digits_end(buf@, pos as int),
        decreases buf@.len() - p,
    {
        p = p + 1;
    }
    p
}

/// Reads the decimal number written in `buf[start..end]`, which holds digits
/// only; `None` when the range is empty or the number exceeds `max`.
pub fn parse_decimal(buf: &[u8], start: usize, end: usize, max: u64) -> (r: Option<u64>)
    requires
        start <= end <= buf@.len(),
        all_digits(buf@.subrange(start as int, end as int)),
    ensures
        r == (match spec_parse_decimal(buf@, start as int, end as int, max as nat) {
            Some(v) => Some(v as u64),
            None => None::<u64>,
        }),
{
    if start == end {
        return None;
    }
    let ghost s = buf@.subrange(start as int, end as int);
    let mut v: u64 = 0;
    let mut i: usize = start;
    assert(s.take(0) =~= Seq::<u8>::empty());
    while i < end
        invariant
            start <= i <= end <= buf@.len(),
            s == buf@.subrange(start as int, end as int),
            all_digits(s),
            v == decimal_value(s.take(i - start)),
            v <= max,
        decreases end - i,
    {
        assert(is_digit(s[i - start]));
        assert(s[i - start] == buf@[i as int]);
        let d = (buf[i] - 48) as u64;
        assert(s.take(i - start + 1).drop_last() =~= s.take(i - start));
        assert(s.take(i - start + 1).last() == buf@[i as int]);
        if d > max || v > (max - d) / 10 {
            proof {
                assert(v * 10 + d > max) by (nonlinear_arith)
                    requires
                        d > max || v > (max - d) / 10,
                        0 <= d <= 9,
                        v >= 0,
                ;
                lemma_decimal_monotone(s, i - start + 1);
            }
            return None;
        }
        proof {
            assert(v * 10 + d <= max) by (nonlinear_arith)
                requires
                    v <= (max - d) / 10,
                    d <= max,
            ;
        }
        v = v * 10 + d;
        i = i + 1;
    }
    assert(s.take(end - start) =~= s);
    Some(v)
}

/// Reads one byte, advancing past it; fails at the end of the buffer.
pub fn next_byte_err(buf: &[u8], pos: usize) -> (r: Result<(u8, usize), ParseError>)
    requires
        pos <= buf@.len(),
    ensures
        pos < buf@.len() ==> r == Ok::<(u8, usize), ParseError>((buf@[pos as int], (pos + 1) as usize)),
        pos == buf@.len() ==> r == Err::<(u8, usize), ParseError>(ParseError::UnexpectedEof),
{
    if pos < buf.len() {
        Ok((buf[pos], pos + 1))
    } else {
        Err(ParseError::UnexpectedEof)
    }
}

/// The byte at `pos`, if any.
pub fn peek_byte(buf: &[u8], pos: usize) -> (r: Option<u8>)
    ensures
        pos < buf@.len() ==> r == Some(buf@[pos as int]),
        pos >= buf@.len() ==> r is None,
{
    if pos < buf.len() {
        Some(buf[pos])
    } else {
        None
    }
}

/// Whether `lit` occurs in `s` at `pos`
pub open spec fn matches_at(s: Seq<u8>, pos: int, lit: Seq<u8>) -> bool {
    0 <= pos && pos + lit.len() <= s.len() && s.subrange(pos, pos + lit.len()) == lit
}

/// Whether the bytes at `pos` are `lit`.
pub fn next_matches(buf: &[u8], pos: usize, lit: &[u8]) -> (r: bool)
    ensures
        r == matches_at(buf@, pos as int, lit@),
{
    let blen = buf.len();
    if pos > blen || lit.len() > blen - pos {
        return false;
    }
    let mut i: usize = 0;
    while i < lit.len()
        invariant
            blen == buf@.len(),
            pos + lit@.len() <= buf@.len(),
            i <= lit@.len(),
            forall|j: int| 0 <= j < i ==> buf@[pos + j] == lit@[j],
        decreases lit@.len() - i,
    {
        if buf[pos + i] != lit[i] {
            assert(buf@.subrange(pos as int, pos + lit@.len())[i as int] != lit@[i as int]);
            return false;
        }
        i = i + 1;
    }
    assert(buf@.subrange(pos as int, pos + lit@.len()) =~= lit@);
    true
}

/// Consumes `lit` at `pos` and returns the position after it.
pub fn expect_bytes(buf: &[u8], pos: usize, lit: &[u8]) -> (r: Result<usize, ParseError>)
    ensures
        matches_at(buf@, pos as int, lit@) ==> r == Ok::<usize, ParseError>((pos + lit@.len()) as usize),
        !matches_at(buf@, pos as int, lit@) ==> r == Err::<usize, ParseError>(ParseError::MismatchedBytes),
{
    let blen = buf.len();
    if next_matches(buf, pos, lit) {
        assert(pos + lit@.len() <= blen);
        Ok(pos + lit.len())
    } else {
        Err(ParseError::MismatchedBytes)
    }
}

/// The position after an end-of-line marker (CR LF, LF or CR) at `pos`, if there is one.
pub open spec fn spec_eol(s: Seq<u8>, pos: int) -> Option<int> {
    if 0 <= pos && pos + 1 < s.len() && s[pos] == 13u8 && s[pos + 1] == 10u8 {
        Some(pos + 2)
    } else if 0 <= pos < s.len() && (s[pos] == 10u8 || s[pos] == 13u8) {
        Some(pos + 1)
    } else {
        None
    }
}

/// Consumes an end-of-line marker.
pub fn expect_eol(buf: &[u8], pos: usize) -> (r: Result<usize, ParseError>)
    ensures
        match r {
            Ok(p) => spec_eol(buf@, pos as int) == Some(p as int) && p <= buf@.len(),
            Err(e) => spec_eol(buf@, pos as int) is None && e == ParseError::ExpectedEol,
        },
{
    if pos < buf.len() && buf[pos] == 13 && pos + 1 < buf.len() && buf[pos + 1] == 10 {
        Ok(pos + 2)
    } else if pos < buf.len() && (buf[pos] == 10 || buf[pos] == 13) {
        Ok(pos + 1)
    } else {
        Err(ParseError::ExpectedEol)
    }
}

/// The unsigned decimal number at `pos`, at most `max`, with the position
/// after its digits.
pub open spec fn spec_number(s: Seq<u8>, pos: int, max: nat) -> Option<(nat, int)> {
    match spec_parse_decimal(s, pos, digits_end(s, pos), max) {
        Some(v) => Some((v, digits_end(s, pos))),
        None => None,
    }
}

/// Reads the unsigned decimal number at `pos`; fails when there are no digits
/// there or the number exceeds `max`.
pub fn read_number(buf: &[u8], pos: usize, max: u64) -> (r: Result<(u64, usize), ParseError>)
    requires
        pos <= buf@.len(),
    ensures
        match r {
            Ok((v, p)) => spec_number(buf@, pos as int, max as nat) == Some((v as nat, p as int))
                && pos < p <= buf@.len() && v <= max,
            Err(e) => spec_number(buf@, pos as int, max as nat) is None && e == ParseError::InvalidNumber,
        },
{
    let end = lex_whole_number(buf, pos);
    proof {
        lemma_digits_end_bounds(buf@, pos as int);
    }
    match parse_decimal(buf, pos, end, max) {
        Some(v) => Ok((v, end)),
        None => Err(ParseError::InvalidNumber),
    }
}

} // verus!
