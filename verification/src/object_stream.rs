//! Object streams: streams that hold a sequence of compressed objects, with a
//! header of object numbers and offsets.

use std::collections::HashMap;

use vstd::prelude::*;

use crate::error::ParseError;
use crate::lex::{
    decimal_value, digits_end, read_number, skip_whitespace, skip_ws, spec_number, lemma_skip_ws_bounds,
};
use crate::objects::Reference;

verus! {

broadcast use vstd::std_specs::hash::group_hash_axioms;

/// The offsets recorded in the header of an object stream, read from `pos`:
/// `count` pairs of unsigned decimal numbers, an object number and the
/// offset of that object, each number followed by optional white space.
/// A later pair for the same object number replaces an earlier one.
pub open spec fn spec_header(s: Seq<u8>, pos: int, count: nat, acc: Map<usize, usize>) -> Result<
    (Map<usize, usize>, int),
    ParseError,
>
    decreases count,
{
    if count == 0 {
        Ok((acc, pos))
    } else {
        match spec_number(s, pos, usize::MAX as nat) {
            None => Err(ParseError::InvalidNumber),
            Some((object_number, e1)) => {
                let p1 = skip_ws(s, e1);
                match spec_number(s, p1, usize::MAX as nat) {
                    None => Err(ParseError::InvalidNumber),
                    Some((offset, e2)) => spec_header(
                        s,
                        skip_ws(s, e2),
                        (count - 1) as nat,
                        acc.insert(object_number as usize, offset as usize),
                    ),
                }
            },
        }
    }
}

/// Reading the header onto a map that already holds offsets ends where
/// reading it alone ends, fails as reading it alone fails, and gives the
/// earlier map overwritten by every pair that the header holds.
pub proof fn lemma_header_accumulates(s: Seq<u8>, pos: int, count: nat, acc: Map<usize, usize>)
    ensures
        match (spec_header(s, pos, count, acc), spec_header(s, pos, count, Map::empty())) {
            (Ok((m, e)), Ok((m0, e0))) => m == acc.union_prefer_right(m0) && e == e0,
            (Err(x), Err(y)) => x == y,
            _ => false,
        },
    decreases count,
{
    if count == 0 {
        assert(acc.union_prefer_right(Map::<usize, usize>::empty()) =~= acc);
    } else {
        match spec_number(s, pos, usize::MAX as nat) {
            None => {},
            Some((a, e1)) => {
                let p1 = skip_ws(s, e1);
                match spec_number(s, p1, usize::MAX as nat) {
                    None => {},
                    Some((b, e2)) => {
                        let next = skip_ws(s, e2);
                        let c = (count - 1) as nat;
                        let one = Map::<usize, usize>::empty().insert(a as usize, b as usize);
                        lemma_header_accumulates(s, next, c, acc.insert(a as usize, b as usize));
                        lemma_header_accumulates(s, next, c, one);
                        match spec_header(s, next, c, Map::empty()) {
                            Ok((r, _)) => {
                                assert(acc.insert(a as usize, b as usize).union_prefer_right(r)
                                    =~= acc.union_prefer_right(one.union_prefer_right(r)));
                            },
                            Err(_) => {},
                        }
                    },
                }
            },
        }
    }
}

/// The first pair of a header, two runs of decimal digits with white space
/// between them, maps the object number that the first run writes to the
/// offset that the second run writes; only a later pair for the same object
/// number replaces it.
pub proof fn lemma_header_first_pair(s: Seq<u8>, pos: int, count: nat)
    requires
        count >= 1,
        pos < digits_end(s, pos),
        decimal_value(s.subrange(pos, digits_end(s, pos))) <= usize::MAX,
        skip_ws(s, digits_end(s, pos)) < digits_end(s, skip_ws(s, digits_end(s, pos))),
        decimal_value(
            s.subrange(skip_ws(s, digits_end(s, pos)), digits_end(s, skip_ws(s, digits_end(s, pos)))),
        ) <= usize::MAX,
    ensures
        ({
            let e1 = digits_end(s, pos);
            let p1 = skip_ws(s, e1);
            let e2 = digits_end(s, p1);
            let object_number = decimal_value(s.subrange(pos, e1)) as usize;
            let offset = decimal_value(s.subrange(p1, e2)) as usize;
            match (
                spec_header(s, pos, count, Map::empty()),
                spec_header(s, skip_ws(s, e2), (count - 1) as nat, Map::empty()),
            ) {
                (Ok((m, e)), Ok((rest, e_rest))) => e == e_rest && m.contains_key(object_number) && (
                !rest.contains_key(object_number) ==> m[object_number] == offset),
                (Err(x), Err(y)) => x == y,
                _ => false,
            }
        }),
{
    let e1 = digits_end(s, pos);
    let p1 = skip_ws(s, e1);
    let e2 = digits_end(s, p1);
    let a = decimal_value(s.subrange(pos, e1));
    let b = decimal_value(s.subrange(p1, e2));
    assert(spec_number(s, pos, usize::MAX as nat) == Some((a, e1)));
    assert(spec_number(s, p1, usize::MAX as nat) == Some((b, e2)));
    let one = Map::<usize, usize>::empty().insert(a as usize, b as usize);
    assert(spec_header(s, pos, count, Map::empty()) == spec_header(s, skip_ws(s, e2), (count - 1) as nat, one));
    lemma_header_accumulates(s, skip_ws(s, e2), (count - 1) as nat, one);
}

/// Reads the objects of a decoded object stream
#[derive(Debug)]
pub struct ObjectStreamParser {
    decoded_stream: Vec<u8>,
    cursor: usize,
    /// Map from object number to offset
    offsets: HashMap<usize, usize>,
}

impl ObjectStreamParser {
    /// The bytes of the objects: the decoded stream after its header
    pub closed spec fn objects_view(&self) -> Seq<u8> {
        self.decoded_stream@
    }

    /// The position just after the header in the decoded stream
    pub closed spec fn cursor_view(&self) -> int {
        self.cursor as int
    }

    /// The offset of each object, from the start of `objects_view`
    pub closed spec fn offsets_view(&self) -> Map<usize, usize> {
        self.offsets@
    }

    /// Reads the header of the decoded object stream `decoded_stream`, which
    /// holds `n` objects, the first of them at byte `first`, and keeps the
    /// bytes from `first` on. The header must hold `n` pairs of numbers; the
    /// stream must be at least `first` bytes long.
    pub fn new(decoded_stream: Vec<u8>, n: usize, first: usize) -> (r: Result<ObjectStreamParser, ParseError>)
        ensures
            match spec_header(decoded_stream@, 0, n as nat, Map::empty()) {
                Err(e) => r == Err::<ObjectStreamParser, ParseError>(e),
                Ok((offsets, end)) => if first <= decoded_stream@.len() {
                    r is Ok && r->Ok_0.offsets_view() == offsets && r->Ok_0.cursor_view() == end
                        && r->Ok_0.objects_view() == decoded_stream@.subrange(first as int, decoded_stream@.len() as int)
                } else {
                    r == Err::<ObjectStreamParser, ParseError>(ParseError::UnexpectedEof)
                },
            },
    {
        let mut offsets: HashMap<usize, usize> = HashMap::new();
        let mut cursor: usize = 0;
        let mut i: usize = 0;
        let ghost s = decoded_stream@;
        while i < n
            invariant
                s == decoded_stream@,
                i <= n,
                cursor <= s.len(),
                spec_header(s, 0, n as nat, Map::empty()) == spec_header(s, cursor as int, (n - i) as nat, offsets@),
            decreases n - i,
        {
            let (object_number, e1) = match read_number(decoded_stream.as_slice(), cursor, usize::MAX as u64) {
                Ok(v) => v,
                Err(e) => {
                    return Err(e);
                },
            };
            let p1 = skip_whitespace(decoded_stream.as_slice(), e1);
            let (offset, e2) = match read_number(decoded_stream.as_slice(), p1, usize::MAX as u64) {
                Ok(v) => v,
                Err(e) => {
                    return Err(e);
                },
            };
            cursor = skip_whitespace(decoded_stream.as_slice(), e2);
            offsets.insert(object_number as usize, offset as usize);
            i = i + 1;
        }
        if first > decoded_stream.len() {
            return Err(ParseError::UnexpectedEof);
        }
        let (_, objects) = decoded_stream.as_slice().split_at(first);
        let objects = vstd::slice::slice_to_vec(objects);
        Ok(ObjectStreamParser { decoded_stream: objects, cursor, offsets })
    }

    /// Where the object that `reference` names starts in `objects_view`;
    /// `None` when the stream does not hold it.
    pub fn object_offset(&self, reference: Reference) -> (r: Option<usize>)
        ensures
            r == (if self.offsets_view().contains_key(reference.object_number) {
                Some(self.offsets_view()[reference.object_number])
            } else {
                None::<usize>
            }),
    {
        match self.offsets.get(&reference.object_number) {
            Some(v) => Some(*v),
            None => None,
        }
    }
}

} // verus!
