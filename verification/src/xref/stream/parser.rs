//! Decoding the entries of a cross-reference stream.

use std::collections::HashMap;

use vstd::prelude::*;

use crate::error::ParseError;
use crate::xref::stream::{spec_field_width, XrefStreamField, XrefStreamFieldWidths};
use crate::xref::{Xref, XrefEntry};

verus! {

broadcast use vstd::std_specs::hash::group_hash_axioms;

/// `s` without its leading zero bytes
pub open spec fn spec_strip_leading_zeroes(s: Seq<u8>) -> Seq<u8>
    decreases s.len(),
{
    if s.len() > 0 && s[0] == 0u8 {
        spec_strip_leading_zeroes(s.drop_first())
    } else {
        s
    }
}

/// The unsigned big-endian integer whose bytes are `s`
pub open spec fn be_value(s: Seq<u8>) -> nat
    decreases s.len(),
{
    if s.len() == 0 {
        0
    } else {
        be_value(s.drop_last()) * 256 + s.last() as nat
    }
}

/// 256 to the power `n`
pub open spec fn pow256(n: nat) -> nat
    decreases n,
{
    if n == 0 {
        1
    } else {
        256 * pow256((n - 1) as nat)
    }
}

/// The value of an integer field: `default` when the field is absent (has no
/// bytes), else its big-endian value, which must fit in eight bytes once the
/// leading zero bytes are dropped.
pub open spec fn spec_parse_integer(s: Seq<u8>, default: Option<u64>) -> Result<u64, ParseError> {
    if s.len() == 0 {
        match default {
            Some(v) => Ok(v),
            None => Err(ParseError::MissingXrefField),
        }
    } else if spec_strip_leading_zeroes(s).len() > 8 {
        Err(ParseError::XrefFieldTooWide)
    } else {
        Ok(be_value(s) as u64)
    }
}

proof fn lemma_be_value_prepend_zero(s: Seq<u8>)
    requires
        s.len() > 0,
        s[0] == 0u8,
    ensures
        be_value(s) == be_value(s.drop_first()),
    decreases s.len(),
{
    if s.len() > 1 {
        lemma_be_value_prepend_zero(s.drop_last());
        assert(s.drop_last().drop_first() =~= s.drop_first().drop_last());
    } else {
        assert(s.drop_first() =~= Seq::<u8>::empty());
        assert(s.drop_last() =~= Seq::<u8>::empty());
    }
}

proof fn lemma_be_value_strip(s: Seq<u8>)
    ensures
        be_value(s) == be_value(spec_strip_leading_zeroes(s)),
    decreases s.len(),
{
    if s.len() > 0 && s[0] == 0u8 {
        lemma_be_value_prepend_zero(s);
        lemma_be_value_strip(s.drop_first());
    }
}

pub proof fn lemma_be_value_bound(s: Seq<u8>)
    ensures
        be_value(s) < pow256(s.len()),
    decreases s.len(),
{
    if s.len() > 0 {
        lemma_be_value_bound(s.drop_last());
        let x = be_value(s.drop_last());
        let p = pow256(s.drop_last().len());
        let b = s.last() as nat;
        assert(x * 256 + b < 256 * p) by (nonlinear_arith)
            requires
                x < p,
                b < 256,
        ;
    }
}

pub proof fn lemma_pow256_8()
    ensures
        pow256(8) == 0x1_0000_0000_0000_0000,
{
    reveal_with_fuel(pow256, 9);
}

proof fn lemma_pow256_monotone(a: nat, b: nat)
    requires
        a <= b,
    ensures
        pow256(a) <= pow256(b),
    decreases b,
{
    if a < b {
        lemma_pow256_monotone(a, (b - 1) as nat);
    }
}

proof fn lemma_strip_is_suffix(s: Seq<u8>)
    ensures
        spec_strip_leading_zeroes(s).len() <= s.len(),
        spec_strip_leading_zeroes(s) =~= s.subrange(
            s.len() - spec_strip_leading_zeroes(s).len(),
            s.len() as int,
        ),
    decreases s.len(),
{
    if s.len() > 0 && s[0] == 0u8 {
        lemma_strip_is_suffix(s.drop_first());
    }
}

/// Leading zero bytes do not change the value of a field that has other
/// bytes.
pub proof fn lemma_parse_integer_leading_zero(s: Seq<u8>, default: Option<u64>)
    requires
        s.len() > 0,
    ensures
        spec_parse_integer(seq![0u8] + s, default) == spec_parse_integer(s, default),
{
    let z = seq![0u8] + s;
    assert(z.drop_first() =~= s);
    lemma_be_value_strip(z);
    lemma_be_value_strip(s);
}

/// Drops the leading zero bytes of `bytes`.
pub fn strip_leading_zeroes(bytes: &[u8]) -> (r: &[u8])
    ensures
        r@ == spec_strip_leading_zeroes(bytes@),
{
    let mut start: usize = 0;
    assert(bytes@.subrange(0, bytes@.len() as int) =~= bytes@);
    while start < bytes.len() && bytes[start] == 0
        invariant
            start <= bytes@.len(),
            spec_strip_leading_zeroes(bytes@) == spec_strip_leading_zeroes(
                bytes@.subrange(start as int, bytes@.len() as int),
            ),
        decreases bytes@.len() - start,
    {
        assert(bytes@.subrange(start as int, bytes@.len() as int).drop_first() =~= bytes@.subrange(
            start + 1,
            bytes@.len() as int,
        ));
        start = start + 1;
    }
    let (_, rest) = bytes.split_at(start);
    rest
}

/// Reads an integer field of a cross-reference stream entry: `default` for a
/// field without bytes, else the big-endian value of its bytes. A field
/// without bytes must have a default, and a field must fit in eight bytes
/// once its leading zero bytes are dropped.
pub fn parse_integer(bytes: &[u8], default: Option<u64>) -> (r: Result<u64, ParseError>)
    requires
        bytes@.len() == 0 ==> default is Some,
        bytes@.len() > 0 ==> spec_strip_leading_zeroes(bytes@).len() <= 8,
    ensures
        r is Ok,
        r == spec_parse_integer(bytes@, default),
{
    if bytes.len() == 0 {
        return match default {
            Some(v) => Ok(v),
            None => Err(ParseError::MissingXrefField),
        };
    }
    let stripped = strip_leading_zeroes(bytes);
    if stripped.len() > 8 {
        return Err(ParseError::XrefFieldTooWide);
    }
    proof {
        lemma_be_value_strip(bytes@);
    }
    Ok(be_to_u64(stripped))
}

/// The unsigned big-endian integer whose at most eight bytes are `bytes`
pub fn be_to_u64(bytes: &[u8]) -> (r: u64)
    requires
        bytes@.len() <= 8,
    ensures
        r == be_value(bytes@),
{
    let ghost t = bytes@;
    let mut sum: u64 = 0;
    let mut i: usize = 0;
    proof {
        lemma_pow256_8();
        assert(t.take(0) =~= Seq::<u8>::empty());
    }
    while i < bytes.len()
        invariant
            t == bytes@,
            t.len() <= 8,
            i <= t.len(),
            sum == be_value(t.take(i as int)),
            pow256(8) == 0x1_0000_0000_0000_0000,
        decreases t.len() - i,
    {
        proof {
            assert(t.take(i + 1).drop_last() =~= t.take(i as int));
            lemma_be_value_bound(t.take(i + 1));
            lemma_pow256_monotone((i + 1) as nat, 8);
        }
        sum = sum * 256 + bytes[i] as u64;
        i = i + 1;
    }
    assert(t.take(t.len() as int) =~= t);
    sum
}

/// The bytes of a field of width `width` at `cursor`, if the stream holds them
pub open spec fn spec_next_field(s: Seq<u8>, cursor: int, width: nat) -> Option<Seq<u8>> {
    if 0 <= cursor && cursor + width <= s.len() {
        Some(s.subrange(cursor, cursor + width))
    } else {
        None
    }
}

/// Reads the field of width `width` at `cursor` as an integer; returns the
/// value and the position after the field.
pub open spec fn spec_read_int(s: Seq<u8>, cursor: int, width: nat, default: Option<u64>) -> Result<
    (u64, int),
    ParseError,
> {
    match spec_next_field(s, cursor, width) {
        None => Err(ParseError::TruncatedXrefStream),
        Some(f) => match spec_parse_integer(f, default) {
            Ok(v) => Ok((v, cursor + width)),
            Err(e) => Err(e),
        },
    }
}

/// Decodes one entry at `cursor`; returns it with the position after it.
///
/// Type 0 entries are free objects, type 1 entries are objects stored in the
/// file, type 2 entries are objects stored in object streams, and entries of
/// any other type are skipped and read as null. An absent type field means
/// type 1; an absent generation of a type 1 entry means 0.
#[verifier::opaque]
pub open spec fn spec_parse_entry(s: Seq<u8>, cursor: int, w: XrefStreamFieldWidths) -> Result<
    (XrefEntry, int),
    ParseError,
> {
    let w0 = spec_field_width(w, XrefStreamField::One);
    let w1 = spec_field_width(w, XrefStreamField::Two);
    let w2 = spec_field_width(w, XrefStreamField::Three);
    match spec_read_int(s, cursor, w0, Some(1)) {
        Err(e) => Err(e),
        Ok((ty, c1)) => if ty == 0 {
            match spec_read_int(s, c1, w1, None) {
                Err(e) => Err(e),
                Ok((next_free_object, c2)) => match spec_read_int(s, c2, w2, None) {
                    Err(e) => Err(e),
                    Ok((generation, c3)) => if generation <= u16::MAX {
                        Ok(
                            (
                                XrefEntry::Free {
                                    next_free_object,
                                    generation_number: generation as u16,
                                },
                                c3,
                            ),
                        )
                    } else {
                        Err(ParseError::IntegerOverflow)
                    },
                },
            }
        } else if ty == 1 {
            match spec_read_int(s, c1, w1, None) {
                Err(e) => Err(e),
                Ok((byte_offset, c2)) => if byte_offset > usize::MAX {
                    Err(ParseError::IntegerOverflow)
                } else {
                    match spec_read_int(s, c2, w2, Some(0)) {
                        Err(e) => Err(e),
                        Ok((generation, c3)) => if generation <= u16::MAX {
                            Ok(
                                (
                                    XrefEntry::InUse {
                                        byte_offset: byte_offset as usize,
                                        generation_number: generation as u16,
                                    },
                                    c3,
                                ),
                            )
                        } else {
                            Err(ParseError::IntegerOverflow)
                        },
                    }
                },
            }
        } else if ty == 2 {
            match spec_read_int(s, c1, w1, None) {
                Err(e) => Err(e),
                Ok((object_number, c2)) => match spec_read_int(s, c2, w2, None) {
                    Err(e) => Err(e),
                    Ok((index, c3)) => if index <= usize::MAX {
                        Ok((XrefEntry::Compressed { object_number, index: index as usize }, c3))
                    } else {
                        Err(ParseError::IntegerOverflow)
                    },
                },
            }
        } else {
            match spec_next_field(s, c1, w1) {
                None => Err(ParseError::TruncatedXrefStream),
                Some(_) => match spec_next_field(s, c1 + w1, w2) {
                    None => Err(ParseError::TruncatedXrefStream),
                    Some(_) => Ok((XrefEntry::Null, c1 + w1 + w2)),
                },
            }
        },
    }
}

/// Decodes `count` consecutive entries for the object numbers `start`,
/// `start + 1`, ..., adding them to `m`.
pub open spec fn spec_parse_run(
    s: Seq<u8>,
    cursor: int,
    w: XrefStreamFieldWidths,
    start: usize,
    count: nat,
    m: Map<usize, XrefEntry>,
) -> Result<(Map<usize, XrefEntry>, int), ParseError>
    decreases count,
{
    if count == 0 {
        Ok((m, cursor))
    } else {
        match spec_parse_run(s, cursor, w, start, (count - 1) as nat, m) {
            Err(e) => Err(e),
            Ok((m2, c2)) => if start + count - 1 > usize::MAX {
                Err(ParseError::IntegerOverflow)
            } else {
                match spec_parse_entry(s, c2, w) {
                    Err(e) => Err(e),
                    Ok((entry, c3)) => Ok((m2.insert((start + count - 1) as usize, entry), c3)),
                }
            },
        }
    }
}

/// Decodes the subsections listed in `index`, in order.
pub open spec fn spec_parse_sections(
    s: Seq<u8>,
    cursor: int,
    w: XrefStreamFieldWidths,
    index: Seq<(usize, usize)>,
    m: Map<usize, XrefEntry>,
) -> Result<(Map<usize, XrefEntry>, int), ParseError>
    decreases index.len(),
{
    if index.len() == 0 {
        Ok((m, cursor))
    } else {
        match spec_parse_sections(s, cursor, w, index.drop_last(), m) {
            Err(e) => Err(e),
            Ok((m2, c2)) => spec_parse_run(s, c2, w, index.last().0, index.last().1 as nat, m2),
        }
    }
}

/// The table that a decoded cross-reference stream describes: each pair
/// `(first, count)` of `index` gives the object numbers of `count` consecutive
/// entries, and the entries must use up the stream exactly.
pub open spec fn spec_parse_xref_stream(
    s: Seq<u8>,
    w: XrefStreamFieldWidths,
    index: Seq<(usize, usize)>,
) -> Result<Map<usize, XrefEntry>, ParseError> {
    match spec_parse_sections(s, 0, w, index, Map::empty()) {
        Err(e) => Err(e),
        Ok((m, c)) => if c == s.len() {
            Ok(m)
        } else {
            Err(ParseError::XrefStreamLengthMismatch)
        },
    }
}

proof fn lemma_run_err(
    s: Seq<u8>,
    c: int,
    w: XrefStreamFieldWidths,
    start: usize,
    a: nat,
    b: nat,
    m: Map<usize, XrefEntry>,
    e: ParseError,
)
    requires
        a <= b,
        spec_parse_run(s, c, w, start, a, m) == Err::<(Map<usize, XrefEntry>, int), ParseError>(e),
    ensures
        spec_parse_run(s, c, w, start, b, m) == Err::<(Map<usize, XrefEntry>, int), ParseError>(e),
    decreases b,
{
    if a < b {
        lemma_run_err(s, c, w, start, a, (b - 1) as nat, m, e);
    }
}

proof fn lemma_sections_err(
    s: Seq<u8>,
    c: int,
    w: XrefStreamFieldWidths,
    index: Seq<(usize, usize)>,
    k: int,
    m: Map<usize, XrefEntry>,
    e: ParseError,
)
    requires
        0 <= k <= index.len(),
        spec_parse_sections(s, c, w, index.take(k), m) == Err::<(Map<usize, XrefEntry>, int), ParseError>(e),
    ensures
        spec_parse_sections(s, c, w, index, m) == Err::<(Map<usize, XrefEntry>, int), ParseError>(e),
    decreases index.len() - k,
{
    if k < index.len() {
        assert(index.take(k + 1).drop_last() =~= index.take(k));
        lemma_sections_err(s, c, w, index, k + 1, m, e);
    } else {
        assert(index.take(k) =~= index);
    }
}

/// A field fits when it has at most eight bytes after its leading zero bytes
pub open spec fn field_fits(f: Seq<u8>) -> bool {
    spec_strip_leading_zeroes(f).len() <= 8
}

proof fn lemma_field_value(f: Seq<u8>, default: Option<u64>)
    requires
        f.len() > 0,
        field_fits(f),
    ensures
        be_value(f) < 0x1_0000_0000_0000_0000,
        spec_parse_integer(f, default) == Ok::<u64, ParseError>(be_value(f) as u64),
{
    lemma_be_value_strip(f);
    lemma_be_value_bound(spec_strip_leading_zeroes(f));
    lemma_pow256_monotone(spec_strip_leading_zeroes(f).len(), 8);
    lemma_pow256_8();
}

/// What one entry of a cross-reference stream decodes to, from its three
/// fields `f0`, `f1`, `f2` of widths `W[0]`, `W[1]`, `W[2]`, each read as a
/// big-endian number. The type is `f0`, or 1 when `W[0]` is 0.
///
/// - type 0: a free entry, whose next free object is `f1` and generation `f2`;
/// - type 1: an entry in use at byte offset `f1`, generation `f2` (0 when
///   `W[2]` is 0);
/// - type 2: an object compressed in the stream object `f1`, at index `f2`;
/// - any other type: a null entry.
///
/// In each case the entry takes exactly `W[0] + W[1] + W[2]` bytes.
pub proof fn lemma_xref_stream_entry(s: Seq<u8>, c: int, w: XrefStreamFieldWidths)
    requires
        0 <= c,
        c + entry_width(w) <= s.len(),
        field_fits(s.subrange(c, c + w.field0)),
        field_fits(s.subrange(c + w.field0, c + w.field0 + w.field1)),
        field_fits(s.subrange(c + w.field0 + w.field1, c + entry_width(w))),
    ensures
        ({
            let f0 = s.subrange(c, c + w.field0);
            let f1 = s.subrange(c + w.field0, c + w.field0 + w.field1);
            let f2 = s.subrange(c + w.field0 + w.field1, c + entry_width(w));
            let ty = if w.field0 == 0 { 1 } else { be_value(f0) };
            let next = c + entry_width(w);
            &&& ty == 0 && w.field1 > 0 && w.field2 > 0 && be_value(f2) <= u16::MAX ==> spec_parse_entry(s, c, w)
                == Ok::<(XrefEntry, int), ParseError>(
                (XrefEntry::Free { next_free_object: be_value(f1) as u64, generation_number: be_value(f2) as u16 }, next),
            )
            &&& ty == 1 && w.field1 > 0 && be_value(f1) <= usize::MAX && (w.field2 == 0 || be_value(f2) <= u16::MAX)
                ==> spec_parse_entry(s, c, w) == Ok::<(XrefEntry, int), ParseError>(
                (
                    XrefEntry::InUse {
                        byte_offset: be_value(f1) as usize,
                        generation_number: if w.field2 == 0 { 0 } else { be_value(f2) as u16 },
                    },
                    next,
                ),
            )
            &&& ty == 2 && w.field1 > 0 && w.field2 > 0 && be_value(f2) <= usize::MAX ==> spec_parse_entry(s, c, w)
                == Ok::<(XrefEntry, int), ParseError>(
                (XrefEntry::Compressed { object_number: be_value(f1) as u64, index: be_value(f2) as usize }, next),
            )
            &&& ty > 2 ==> spec_parse_entry(s, c, w) == Ok::<(XrefEntry, int), ParseError>((XrefEntry::Null, next))
        }),
{
    reveal(spec_parse_entry);
    let f0 = s.subrange(c, c + w.field0);
    let f1 = s.subrange(c + w.field0, c + w.field0 + w.field1);
    let f2 = s.subrange(c + w.field0 + w.field1, c + entry_width(w));
    if w.field0 > 0 {
        lemma_field_value(f0, Some(1));
    } else {
        assert(f0.len() == 0);
    }
    if w.field1 > 0 {
        lemma_field_value(f1, None);
    }
    if w.field2 > 0 {
        lemma_field_value(f2, None);
        lemma_field_value(f2, Some(0));
    } else {
        assert(f2.len() == 0);
    }
}

/// The number of entries that the subsections of `index` list
pub open spec fn index_entries(index: Seq<(usize, usize)>) -> nat
    decreases index.len(),
{
    if index.len() == 0 {
        0
    } else {
        index_entries(index.drop_last()) + index.last().1 as nat
    }
}

/// The width of one entry: the sum of the three field widths
pub open spec fn entry_width(w: XrefStreamFieldWidths) -> nat {
    (w.field0 + w.field1 + w.field2) as nat
}

proof fn lemma_entry_advances(s: Seq<u8>, c: int, w: XrefStreamFieldWidths)
    ensures
        spec_parse_entry(s, c, w) matches Ok((_, c2)) ==> c2 == c + entry_width(w),
{
    reveal(spec_parse_entry);
}

proof fn lemma_run_advances(
    s: Seq<u8>,
    c: int,
    w: XrefStreamFieldWidths,
    start: usize,
    count: nat,
    m: Map<usize, XrefEntry>,
)
    ensures
        spec_parse_run(s, c, w, start, count, m) matches Ok((m2, c2)) ==> c2 == c + count * entry_width(w)
            && forall|i: nat| i < count ==> #[trigger] m2.contains_key((start + i) as usize),
        spec_parse_run(s, c, w, start, count, m) matches Ok((m2, c2)) ==> forall|k: usize|
            #[trigger] m.contains_key(k) ==> m2.contains_key(k),
    decreases count,
{
    if count > 0 {
        lemma_run_advances(s, c, w, start, (count - 1) as nat, m);
        if let Ok((m1, c1)) = spec_parse_run(s, c, w, start, (count - 1) as nat, m) {
            if start + count - 1 <= usize::MAX {
                lemma_entry_advances(s, c1, w);
                if let Ok((entry, c3)) = spec_parse_entry(s, c1, w) {
                    let key = (start + count - 1) as usize;
                    let m2 = m1.insert(key, entry);
                    assert(spec_parse_run(s, c, w, start, count, m) == Ok::<(Map<usize, XrefEntry>, int), ParseError>((m2, c3)));
                    let k = count as int;
                    let ew = entry_width(w) as int;
                    assert((k - 1) * ew + ew == k * ew) by (nonlinear_arith);
                    assert forall|i: nat| i < count implies #[trigger] m2.contains_key((start + i) as usize) by {
                        if i < count - 1 {
                            assert(m1.contains_key((start + i) as usize));
                        }
                    }
                    assert forall|k: usize| #[trigger] m.contains_key(k) implies m2.contains_key(k) by {
                        assert(m1.contains_key(k));
                    }
                }
            }
        }
    } else {
        let ew = entry_width(w) as int;
        assert(count * ew == 0) by (nonlinear_arith)
            requires
                count == 0,
        ;
    }
}

/// The entry decoded from the `k`-th block of `W[0] + W[1] + W[2]` bytes
/// after `c`
pub open spec fn entry_at(s: Seq<u8>, c: int, w: XrefStreamFieldWidths, k: nat) -> Result<(XrefEntry, int), ParseError> {
    spec_parse_entry(s, c + k * entry_width(w), w)
}

/// The `k`-th entry of a subsection of a cross-reference stream that starts
/// at object number `start` is stored under object number `start + k`, and
/// it is the entry decoded from the `k`-th block of `W[0] + W[1] + W[2]`
/// bytes.
pub proof fn lemma_run_entries(
    s: Seq<u8>,
    c: int,
    w: XrefStreamFieldWidths,
    start: usize,
    count: nat,
    m: Map<usize, XrefEntry>,
)
    ensures
        spec_parse_run(s, c, w, start, count, m) is Ok ==> forall|k: nat|
            k < count ==> #[trigger] entry_at(s, c, w, k) is Ok && spec_parse_run(s, c, w, start, count, m)->Ok_0.0[(
            start + k) as usize] == entry_at(s, c, w, k)->Ok_0.0,
    decreases count,
{
    if count > 0 {
        lemma_run_entries(s, c, w, start, (count - 1) as nat, m);
        lemma_run_advances(s, c, w, start, (count - 1) as nat, m);
        if let Ok((m1, c1)) = spec_parse_run(s, c, w, start, (count - 1) as nat, m) {
            if start + count - 1 <= usize::MAX {
                if let Ok((entry, c3)) = spec_parse_entry(s, c1, w) {
                    let key = (start + count - 1) as usize;
                    let m2 = m1.insert(key, entry);
                    assert(spec_parse_run(s, c, w, start, count, m) == Ok::<(Map<usize, XrefEntry>, int), ParseError>((m2, c3)));
                    assert forall|k: nat| k < count implies #[trigger] entry_at(s, c, w, k) is Ok
                        && m2[(start + k) as usize] == entry_at(s, c, w, k)->Ok_0.0 by {
                        if k < count - 1 {
                            assert((start + k) as usize != key);
                        } else {
                            assert(c1 == c + (count - 1) * entry_width(w));
                        }
                    }
                }
            }
        }
    }
}

/// A cross-reference stream that decodes holds exactly one entry of the
/// width `W[0] + W[1] + W[2]` for each object that `Index` lists, and every
/// listed object number has an entry in the table.
pub proof fn lemma_xref_stream_shape(s: Seq<u8>, w: XrefStreamFieldWidths, index: Seq<(usize, usize)>)
    ensures
        spec_parse_xref_stream(s, w, index) is Ok ==> s.len() == index_entries(index) * entry_width(w),
        spec_parse_xref_stream(s, w, index) matches Ok(m) ==> forall|j: int, i: nat|
            0 <= j < index.len() && i < index[j].1 ==> #[trigger] m.contains_key((index[j].0 + i) as usize),
{
    lemma_sections_shape(s, w, index, Map::empty());
}

proof fn lemma_sections_shape(
    s: Seq<u8>,
    w: XrefStreamFieldWidths,
    index: Seq<(usize, usize)>,
    m: Map<usize, XrefEntry>,
)
    ensures
        spec_parse_sections(s, 0, w, index, m) matches Ok((m2, c)) ==> c == index_entries(index) * entry_width(w)
            && forall|j: int, i: nat|
            0 <= j < index.len() && i < index[j].1 ==> #[trigger] m2.contains_key((index[j].0 + i) as usize),
    decreases index.len(),
{
    if index.len() > 0 {
        let init = index.drop_last();
        lemma_sections_shape(s, w, init, m);
        if let Ok((m1, c1)) = spec_parse_sections(s, 0, w, init, m) {
            let (first, count) = index.last();
            lemma_run_advances(s, c1, w, first, count as nat, m1);
            assert(index_entries(index) == index_entries(init) + count);
            assert(spec_parse_sections(s, 0, w, index, m) == spec_parse_run(s, c1, w, first, count as nat, m1));
            if let Ok((m2, c2)) = spec_parse_run(s, c1, w, first, count as nat, m1) {
                let a = index_entries(init) as int;
                let b = count as int;
                let ew = entry_width(w) as int;
                assert(a * ew + b * ew == (a + b) * ew) by (nonlinear_arith);
                assert forall|j: int, i: nat| 0 <= j < index.len() && i < index[j].1 implies #[trigger] m2.contains_key(
                    (index[j].0 + i) as usize,
                ) by {
                    if j < init.len() {
                        assert(index[j] == init[j]);
                        assert(m1.contains_key((init[j].0 + i) as usize));
                    } else {
                        assert(index[j] == (first, count));
                    }
                }
            }
        }
    } else {
        let ew = entry_width(w) as int;
        assert(0 * ew == 0) by (nonlinear_arith);
    }
}

/// Reads the entries of a decoded cross-reference stream
#[derive(Debug)]
pub struct XrefStreamParser<'a> {
    stream: &'a [u8],
    cursor: usize,
    w: XrefStreamFieldWidths,
    index: Vec<(usize, usize)>,
}

impl<'a> XrefStreamParser<'a> {
    pub closed spec fn stream_view(&self) -> Seq<u8> {
        self.stream@
    }

    pub closed spec fn cursor_view(&self) -> int {
        self.cursor as int
    }

    pub closed spec fn widths(&self) -> XrefStreamFieldWidths {
        self.w
    }

    pub closed spec fn index_view(&self) -> Seq<(usize, usize)> {
        self.index@
    }

    pub fn new(stream: &'a [u8], w: XrefStreamFieldWidths, index: Vec<(usize, usize)>) -> (r: Self)
        ensures
            r.stream_view() == stream@,
            r.cursor_view() == 0,
            r.widths() == w,
            r.index_view() == index@,
    {
        Self { w, index, stream, cursor: 0 }
    }

    /// Decodes every entry, returning the table they describe.
    pub fn parse(self) -> (r: Result<Xref, ParseError>)
        requires
            self.cursor_view() == 0,
        ensures
            match r {
                Ok(x) => spec_parse_xref_stream(self.stream_view(), self.widths(), self.index_view())
                    == Ok::<Map<usize, XrefEntry>, ParseError>(x@),
                Err(e) => spec_parse_xref_stream(self.stream_view(), self.widths(), self.index_view())
                    == Err::<Map<usize, XrefEntry>, ParseError>(e),
            },
    {
        let mut this = self;
        let ghost s = this.stream@;
        let ghost w = this.w;
        let ghost index = this.index@;
        assert(s == self.stream_view() && w == self.widths() && index == self.index_view());
        let mut objects: HashMap<usize, XrefEntry> = HashMap::new();
        let mut k: usize = 0;
        let n = this.index.len();
        assert(index.take(0) =~= Seq::<(usize, usize)>::empty());
        while k < n
            invariant
                s == self.stream_view() && w == self.widths() && index == self.index_view(),
                n == index.len(),
                k <= n,
                this.stream@ == s,
                this.w == w,
                this.index@ == index,
                this.cursor <= s.len(),
                spec_parse_sections(s, 0, w, index.take(k as int), Map::empty()) == Ok::<
                    (Map<usize, XrefEntry>, int),
                    ParseError,
                >((objects@, this.cursor as int)),
            decreases n - k,
        {
            let (idx_offset, num_of_objects) = this.index[k];
            assert(index.take(k + 1).drop_last() =~= index.take(k as int));
            assert(index.take(k + 1).last() == (idx_offset, num_of_objects));
            let ghost m0 = objects@;
            let ghost c0 = this.cursor as int;
            match this.parse_run(&mut objects, idx_offset, num_of_objects) {
                Ok(()) => {},
                Err(e) => {
                    proof {
                        let t = index.take(k + 1);
                        assert(t.drop_last() == index.take(k as int));
                        assert(spec_parse_sections(s, 0, w, t, Map::empty()) == Err::<(Map<usize, XrefEntry>, int), ParseError>(e));
                        lemma_sections_err(s, 0, w, index, k + 1, Map::empty(), e);
                        assert(spec_parse_xref_stream(s, w, index) == Err::<Map<usize, XrefEntry>, ParseError>(e));
                    }
                    return Err(e);
                },
            }
            k = k + 1;
        }
        assert(index.take(n as int) =~= index);
        if this.cursor != this.stream.len() {
            return Err(ParseError::XrefStreamLengthMismatch);
        }
        Ok(Xref { objects })
    }

    /// Decodes `count` entries for the object numbers from `start` on, adding
    /// them to `objects`.
    fn parse_run(&mut self, objects: &mut HashMap<usize, XrefEntry>, start: usize, count: usize) -> (r: Result<(), ParseError>)
        requires
            old(self).cursor <= old(self).stream@.len(),
        ensures
            final(self).stream == old(self).stream,
            final(self).w == old(self).w,
            final(self).index == old(self).index,
            final(self).cursor <= final(self).stream@.len(),
            match r {
                Ok(_) => spec_parse_run(old(self).stream@, old(self).cursor as int, old(self).w, start, count as nat, old(objects)@)
                    == Ok::<(Map<usize, XrefEntry>, int), ParseError>((final(objects)@, final(self).cursor as int)),
                Err(e) => spec_parse_run(old(self).stream@, old(self).cursor as int, old(self).w, start, count as nat, old(objects)@)
                    == Err::<(Map<usize, XrefEntry>, int), ParseError>(e),
            },
    {
        let ghost s = self.stream@;
        let ghost w = self.w;
        let ghost m0 = objects@;
        let ghost c0 = self.cursor as int;
        let mut idx: usize = 0;
        while idx < count
            invariant
                idx <= count,
                self.stream@ == s,
                self.stream == old(self).stream,
                self.w == w,
                w == old(self).w,
                self.index == old(self).index,
                self.cursor <= s.len(),
                s == old(self).stream@,
                c0 == old(self).cursor as int,
                m0 == old(objects)@,
                spec_parse_run(s, c0, w, start, idx as nat, m0) == Ok::<
                    (Map<usize, XrefEntry>, int),
                    ParseError,
                >((objects@, self.cursor as int)),
            decreases count - idx,
        {
            if start > usize::MAX - idx {
                proof {
                    let e = ParseError::IntegerOverflow;
                    assert(spec_parse_run(s, c0, w, start, (idx + 1) as nat, m0) == Err::<(Map<usize, XrefEntry>, int), ParseError>(e));
                    lemma_run_err(s, c0, w, start, (idx + 1) as nat, count as nat, m0, e);
                }
                return Err(ParseError::IntegerOverflow);
            }
            let key = idx + start;
            let entry = match self.parse_entry() {
                Ok(e) => e,
                Err(e) => {
                    proof {
                        assert(spec_parse_run(s, c0, w, start, (idx + 1) as nat, m0) == Err::<(Map<usize, XrefEntry>, int), ParseError>(e));
                        lemma_run_err(s, c0, w, start, (idx + 1) as nat, count as nat, m0, e);
                    }
                    return Err(e);
                },
            };
            objects.insert(key, entry);
            idx = idx + 1;
        }
        Ok(())
    }

    /// Decodes the entry at the cursor and moves past it.
    fn parse_entry(&mut self) -> (r: Result<XrefEntry, ParseError>)
        requires
            old(self).cursor <= old(self).stream@.len(),
        ensures
            final(self).stream == old(self).stream,
            final(self).w == old(self).w,
            final(self).index == old(self).index,
            final(self).cursor <= final(self).stream@.len(),
            match r {
                Ok(e) => spec_parse_entry(old(self).stream@, old(self).cursor as int, old(self).w)
                    == Ok::<(XrefEntry, int), ParseError>((e, final(self).cursor as int)),
                Err(err) => spec_parse_entry(old(self).stream@, old(self).cursor as int, old(self).w)
                    == Err::<(XrefEntry, int), ParseError>(err),
            },
    {
        reveal(spec_parse_entry);
        let entry_type = self.read_int(XrefStreamField::One, Some(1))?;
        if entry_type == 0 {
            self.parse_type_zero_entry()
        } else if entry_type == 1 {
            self.parse_type_one_entry()
        } else if entry_type == 2 {
            self.parse_type_two_entry()
        } else {
            self.parse_type_unknown_entry()
        }
    }

    /// Reads the next field as an integer
    fn read_int(&mut self, field: XrefStreamField, default: Option<u64>) -> (r: Result<u64, ParseError>)
        requires
            old(self).cursor <= old(self).stream@.len(),
        ensures
            final(self).stream == old(self).stream,
            final(self).w == old(self).w,
            final(self).index == old(self).index,
            final(self).cursor <= final(self).stream@.len(),
            match r {
                Ok(v) => spec_read_int(old(self).stream@, old(self).cursor as int, spec_field_width(old(self).w, field), default)
                    == Ok::<(u64, int), ParseError>((v, final(self).cursor as int)),
                Err(err) => spec_read_int(old(self).stream@, old(self).cursor as int, spec_field_width(old(self).w, field), default)
                    == Err::<(u64, int), ParseError>(err),
            },
    {
        let bytes = self.next_field(field)?;
        if bytes.len() == 0 && default.is_none() {
            return Err(ParseError::MissingXrefField);
        }
        if bytes.len() > 0 && strip_leading_zeroes(bytes).len() > 8 {
            return Err(ParseError::XrefFieldTooWide);
        }
        parse_integer(bytes, default)
    }

    /// Equivalent to free entries in a regular xref table
    fn parse_type_zero_entry(&mut self) -> (r: Result<XrefEntry, ParseError>)
        requires
            old(self).cursor <= old(self).stream@.len(),
        ensures
            final(self).stream == old(self).stream,
            final(self).w == old(self).w,
            final(self).index == old(self).index,
            final(self).cursor <= final(self).stream@.len(),
            ({
                let s = old(self).stream@;
                let c = old(self).cursor as int;
                let w = old(self).w;
                let expected = match spec_read_int(s, c, spec_field_width(w, XrefStreamField::Two), None) {
                    Err(e) => Err(e),
                    Ok((next_free_object, c2)) => match spec_read_int(s, c2, spec_field_width(w, XrefStreamField::Three), None) {
                        Err(e) => Err(e),
                        Ok((generation, c3)) => if generation <= u16::MAX {
                            Ok((XrefEntry::Free { next_free_object, generation_number: generation as u16 }, c3))
                        } else {
                            Err(ParseError::IntegerOverflow)
                        },
                    },
                };
                match r {
                    Ok(e) => expected == Ok::<(XrefEntry, int), ParseError>((e, final(self).cursor as int)),
                    Err(err) => expected == Err::<(XrefEntry, int), ParseError>(err),
                }
            }),
    {
        let next_free_object = self.read_int(XrefStreamField::Two, None)?;
        let generation = self.read_int(XrefStreamField::Three, None)?;
        if generation > u16::MAX as u64 {
            return Err(ParseError::IntegerOverflow);
        }
        Ok(XrefEntry::Free { next_free_object, generation_number: generation as u16 })
    }

    /// Equivalent to in-use entries in a regular xref table
    fn parse_type_one_entry(&mut self) -> (r: Result<XrefEntry, ParseError>)
        requires
            old(self).cursor <= old(self).stream@.len(),
        ensures
            final(self).stream == old(self).stream,
            final(self).w == old(self).w,
            final(self).index == old(self).index,
            final(self).cursor <= final(self).stream@.len(),
            ({
                let s = old(self).stream@;
                let c = old(self).cursor as int;
                let w = old(self).w;
                let expected = match spec_read_int(s, c, spec_field_width(w, XrefStreamField::Two), None) {
                    Err(e) => Err(e),
                    Ok((byte_offset, c2)) => if byte_offset > usize::MAX {
                        Err(ParseError::IntegerOverflow)
                    } else {
                        match spec_read_int(s, c2, spec_field_width(w, XrefStreamField::Three), Some(0)) {
                            Err(e) => Err(e),
                            Ok((generation, c3)) => if generation <= u16::MAX {
                                Ok((XrefEntry::InUse { byte_offset: byte_offset as usize, generation_number: generation as u16 }, c3))
                            } else {
                                Err(ParseError::IntegerOverflow)
                            },
                        }
                    },
                };
                match r {
                    Ok(e) => expected == Ok::<(XrefEntry, int), ParseError>((e, final(self).cursor as int)),
                    Err(err) => expected == Err::<(XrefEntry, int), ParseError>(err),
                }
            }),
    {
        let byte_offset = self.read_int(XrefStreamField::Two, None)?;
        if byte_offset > usize::MAX as u64 {
            return Err(ParseError::IntegerOverflow);
        }
        let generation = self.read_int(XrefStreamField::Three, Some(0))?;
        if generation > u16::MAX as u64 {
            return Err(ParseError::IntegerOverflow);
        }
        Ok(XrefEntry::InUse { byte_offset: byte_offset as usize, generation_number: generation as u16 })
    }

    /// Compressed xref entries
    fn parse_type_two_entry(&mut self) -> (r: Result<XrefEntry, ParseError>)
        requires
            old(self).cursor <= old(self).stream@.len(),
        ensures
            final(self).stream == old(self).stream,
            final(self).w == old(self).w,
            final(self).index == old(self).index,
            final(self).cursor <= final(self).stream@.len(),
            ({
                let s = old(self).stream@;
                let c = old(self).cursor as int;
                let w = old(self).w;
                let expected = match spec_read_int(s, c, spec_field_width(w, XrefStreamField::Two), None) {
                    Err(e) => Err(e),
                    Ok((object_number, c2)) => match spec_read_int(s, c2, spec_field_width(w, XrefStreamField::Three), None) {
                        Err(e) => Err(e),
                        Ok((index, c3)) => if index <= usize::MAX {
                            Ok((XrefEntry::Compressed { object_number, index: index as usize }, c3))
                        } else {
                            Err(ParseError::IntegerOverflow)
                        },
                    },
                };
                match r {
                    Ok(e) => expected == Ok::<(XrefEntry, int), ParseError>((e, final(self).cursor as int)),
                    Err(err) => expected == Err::<(XrefEntry, int), ParseError>(err),
                }
            }),
    {
        let object_number = self.read_int(XrefStreamField::Two, None)?;
        let index = self.read_int(XrefStreamField::Three, None)?;
        if index > usize::MAX as u64 {
            return Err(ParseError::IntegerOverflow);
        }
        Ok(XrefEntry::Compressed { object_number, index: index as usize })
    }

    /// Entries of unknown type are skipped and read as null
    fn parse_type_unknown_entry(&mut self) -> (r: Result<XrefEntry, ParseError>)
        requires
            old(self).cursor <= old(self).stream@.len(),
        ensures
            final(self).stream == old(self).stream,
            final(self).w == old(self).w,
            final(self).index == old(self).index,
            final(self).cursor <= final(self).stream@.len(),
            ({
                let s = old(self).stream@;
                let c = old(self).cursor as int;
                let w1 = spec_field_width(old(self).w, XrefStreamField::Two);
                let w2 = spec_field_width(old(self).w, XrefStreamField::Three);
                let expected = match spec_next_field(s, c, w1) {
                    None => Err(ParseError::TruncatedXrefStream),
                    Some(_) => match spec_next_field(s, c + w1, w2) {
                        None => Err(ParseError::TruncatedXrefStream),
                        Some(_) => Ok((XrefEntry::Null, c + w1 + w2)),
                    },
                };
                match r {
                    Ok(e) => expected == Ok::<(XrefEntry, int), ParseError>((e, final(self).cursor as int)),
                    Err(err) => expected == Err::<(XrefEntry, int), ParseError>(err),
                }
            }),
    {
        self.next_field(XrefStreamField::Two)?;
        self.next_field(XrefStreamField::Three)?;
        Ok(XrefEntry::Null)
    }

    /// The bytes of the next field; moves the cursor past them.
    fn next_field(&mut self, field: XrefStreamField) -> (r: Result<&'a [u8], ParseError>)
        requires
            old(self).cursor <= old(self).stream@.len(),
        ensures
            final(self).stream == old(self).stream,
            final(self).w == old(self).w,
            final(self).index == old(self).index,
            final(self).cursor <= final(self).stream@.len(),
            match spec_next_field(old(self).stream@, old(self).cursor as int, spec_field_width(old(self).w, field)) {
                Some(f) => r == Ok::<&'a [u8], ParseError>(r->Ok_0) && r->Ok_0@ == f
                    && final(self).cursor == old(self).cursor + spec_field_width(old(self).w, field),
                None => r == Err::<&'a [u8], ParseError>(ParseError::TruncatedXrefStream),
            },
    {
        let field_width = self.w.field_width(field);
        if field_width > self.stream.len() - self.cursor {
            return Err(ParseError::TruncatedXrefStream);
        }
        let end = self.cursor + field_width;
        let (head, _) = self.stream.split_at(end);
        let (_, field_val) = head.split_at(self.cursor);
        assert(field_val@ =~= self.stream@.subrange(self.cursor as int, end as int));
        self.cursor = end;
        Ok(field_val)
    }
}

} // verus!
