//! The cross-reference table, which maps object numbers to the places where
//! the objects are stored.

use std::collections::HashMap;

use vstd::prelude::*;

use crate::{error::ParseError, objects::Reference};

pub mod parser;
pub mod stream;

verus! {

broadcast use vstd::std_specs::hash::group_hash_axioms;

/// The cross-reference table contains information that permits random access
/// to indirect objects within the file so that the entire file need not be
/// read to locate any particular object
#[derive(Debug)]
pub struct Xref {
    pub objects: HashMap<usize, XrefEntry>,
}

/// Where an object can be read from
#[derive(Debug, Clone, Copy, PartialEq, Eq, Structural)]
pub enum ByteOffset {
    /// At this byte offset of the file
    MainFile(usize),
    /// Inside the object stream at `byte_offset`, as its `index`-th object
    ObjectStream { byte_offset: usize, index: usize },
}

/// One entry of a cross-reference section
#[derive(Debug, Clone, Copy, PartialEq, Eq, Structural)]
pub enum XrefEntry {
    InUse { byte_offset: usize, generation_number: u16 },
    Free { next_free_object: u64, generation_number: u16 },
    Compressed {
        /// The object number of the object stream in which this object is stored
        ///
        /// The generation number of the object stream shall be implicitly 0
        object_number: u64,
        /// The index of this object within the object stream
        index: usize,
    },
    Null,
}

impl View for Xref {
    type V = Map<usize, XrefEntry>;

    open spec fn view(&self) -> Map<usize, XrefEntry> {
        self.objects@
    }
}

/// Where the object with the given number can be read, according to `m`,
/// following at most `fuel` compressed entries.
///
/// Free and null entries, and missing entries, locate nothing. An entry in
/// use locates its object at its byte offset in the file. A compressed entry
/// locates its object inside the object stream that the entry names, as the
/// `index`-th object of the stream, when the stream itself is located in the
/// file; it locates nothing when the stream is located nowhere. A stream
/// that is itself inside an object stream is an error, as is a chain of
/// compressed entries longer than `fuel`.
pub open spec fn spec_locate(m: Map<usize, XrefEntry>, object_number: usize, fuel: nat) -> Result<
    Option<ByteOffset>,
    ParseError,
>
    decreases fuel,
{
    if !m.contains_key(object_number) {
        Ok(None)
    } else {
        match m[object_number] {
            XrefEntry::Free { .. } | XrefEntry::Null => Ok(None),
            XrefEntry::InUse { byte_offset, .. } => Ok(Some(ByteOffset::MainFile(byte_offset))),
            XrefEntry::Compressed { object_number: stream, index } => {
                if stream > usize::MAX {
                    Err(ParseError::IntegerOverflow)
                } else if fuel == 0 {
                    Err(ParseError::NestedObjectStream)
                } else {
                    match spec_locate(m, stream as usize, (fuel - 1) as nat) {
                        Err(e) => Err(e),
                        Ok(None) => Ok(None),
                        Ok(Some(ByteOffset::MainFile(byte_offset))) => Ok(
                            Some(ByteOffset::ObjectStream { byte_offset, index }),
                        ),
                        Ok(Some(ByteOffset::ObjectStream { .. })) => Err(ParseError::NestedObjectStream),
                    }
                }
            },
        }
    }
}

/// Where the object with the given number can be read, according to `m`.
///
/// Compressed entries are followed at most as many times as `m` has entries:
/// a longer chain of them passes some entry twice, so it is a cycle, which
/// would be followed forever, and is reported as `NestedObjectStream`.
pub open spec fn spec_get_offset(m: Map<usize, XrefEntry>, object_number: usize) -> Result<
    Option<ByteOffset>,
    ParseError,
> {
    spec_locate(m, object_number, m.len())
}

/// Merging with an earlier section keeps each entry of the newer table, so
/// an object that the newer table stores directly, or marks free, is
/// located as the newer table alone locates it; an object that only the
/// earlier section describes keeps the earlier entry.
pub proof fn lemma_merge_keeps_newer(
    previous: Map<usize, XrefEntry>,
    newer: Map<usize, XrefEntry>,
    object_number: usize,
)
    ensures
        newer.contains_key(object_number) ==> previous.union_prefer_right(newer)[object_number]
            == newer[object_number],
        !newer.contains_key(object_number) && previous.contains_key(object_number)
            ==> previous.union_prefer_right(newer)[object_number] == previous[object_number],
        newer.contains_key(object_number) && !(newer[object_number] is Compressed) ==> spec_get_offset(
            previous.union_prefer_right(newer),
            object_number,
        ) == spec_get_offset(newer, object_number),
{
}

/// The object stream that the entry of `n` names, when that entry is a
/// compressed one whose stream number is a `usize`
pub open spec fn follows(m: Map<usize, XrefEntry>, n: usize) -> bool {
    m.contains_key(n) && m[n] is Compressed && m[n]->object_number <= usize::MAX
}

/// The `i`-th object on the chain of compressed entries that starts at `n`:
/// each step moves to the object stream that a compressed entry names, and
/// the chain stays put at an entry that is not compressed.
pub open spec fn chain_node(m: Map<usize, XrefEntry>, n: usize, i: nat) -> usize
    decreases i,
{
    if i == 0 {
        n
    } else {
        let prev = chain_node(m, n, (i - 1) as nat);
        if follows(m, prev) {
            m[prev]->object_number as usize
        } else {
            prev
        }
    }
}

/// The first `k + 1` objects of the chain from `n` all have compressed entries
pub open spec fn all_follow(m: Map<usize, XrefEntry>, n: usize, k: nat) -> bool {
    forall|i: nat| i <= k ==> #[trigger] follows(m, chain_node(m, n, i))
}

proof fn lemma_chain_shift(m: Map<usize, XrefEntry>, n: usize, i: nat)
    requires
        follows(m, n),
    ensures
        chain_node(m, n, i + 1) == chain_node(m, m[n]->object_number as usize, i),
    decreases i,
{
    let next = m[n]->object_number as usize;
    if i > 0 {
        lemma_chain_shift(m, n, (i - 1) as nat);
        assert(chain_node(m, n, i) == chain_node(m, next, (i - 1) as nat));
        assert(chain_node(m, n, i + 1) == (if follows(m, chain_node(m, n, i)) {
            m[chain_node(m, n, i)]->object_number as usize
        } else {
            chain_node(m, n, i)
        }));
    } else {
        assert(chain_node(m, n, 0) == n);
        assert(chain_node(m, n, 1) == next);
    }
}

/// Once the chain from `n` reaches an entry that is not compressed within
/// `f` steps, more fuel changes nothing.
proof fn lemma_locate_stable(m: Map<usize, XrefEntry>, n: usize, f: nat, g: nat)
    requires
        f <= g,
        !all_follow(m, n, f),
    ensures
        spec_locate(m, n, f) == spec_locate(m, n, g),
    decreases f,
{
    if follows(m, n) {
        let next = m[n]->object_number as usize;
        let i = choose|i: nat| i <= f && !#[trigger] follows(m, chain_node(m, n, i));
        assert(chain_node(m, n, 0) == n);
        assert(i > 0);
        lemma_chain_shift(m, n, (i - 1) as nat);
        assert(!follows(m, chain_node(m, next, (i - 1) as nat)));
        lemma_locate_stable(m, next, (f - 1) as nat, (g - 1) as nat);
    }
}

/// A chain whose first `f + 1` objects are all compressed runs out of fuel
/// `f`.
proof fn lemma_locate_exhausted(m: Map<usize, XrefEntry>, n: usize, f: nat)
    requires
        all_follow(m, n, f),
    ensures
        spec_locate(m, n, f) == Err::<Option<ByteOffset>, ParseError>(ParseError::NestedObjectStream),
    decreases f,
{
    assert(chain_node(m, n, 0) == n);
    assert(follows(m, chain_node(m, n, 0)));
    if f > 0 {
        let next = m[n]->object_number as usize;
        assert forall|i: nat| i <= (f - 1) as nat implies #[trigger] follows(m, chain_node(m, next, i)) by {
            lemma_chain_shift(m, n, i);
            assert(follows(m, chain_node(m, n, i + 1)));
        }
        lemma_locate_exhausted(m, next, (f - 1) as nat);
    }
}

proof fn lemma_chain_periodic(m: Map<usize, XrefEntry>, n: usize, i: nat, p: nat, k: nat)
    requires
        chain_node(m, n, i + p) == chain_node(m, n, i),
        i <= k,
    ensures
        chain_node(m, n, k + p) == chain_node(m, n, k),
    decreases k - i,
{
    if k > i {
        lemma_chain_periodic(m, n, i, p, (k - 1) as nat);
        assert(chain_node(m, n, (k - 1 + p + 1) as nat) == chain_node(m, n, k + p));
    }
}

proof fn lemma_cycle_follows(m: Map<usize, XrefEntry>, n: usize, f: nat, i: nat, p: nat, k: nat)
    requires
        all_follow(m, n, f),
        p > 0,
        i + p <= f,
        chain_node(m, n, i + p) == chain_node(m, n, i),
    ensures
        follows(m, chain_node(m, n, k)),
    decreases k,
{
    if k > f {
        lemma_chain_periodic(m, n, i, p, (k - p) as nat);
        lemma_cycle_follows(m, n, f, i, p, (k - p) as nat);
    }
}

/// A chain of more compressed entries than the table has passes some entry
/// twice, so it goes round for ever.
proof fn lemma_chain_cycles(m: Map<usize, XrefEntry>, n: usize, f: nat, g: nat)
    requires
        m.dom().finite(),
        f >= m.len(),
        all_follow(m, n, f),
    ensures
        all_follow(m, n, g),
{
    let s = Seq::new(f + 1, |i: int| chain_node(m, n, i as nat));
    assert(s.to_set().subset_of(m.dom())) by {
        assert forall|x: usize| s.to_set().contains(x) implies m.dom().contains(x) by {
            let i = choose|i: int| 0 <= i < s.len() && s[i] == x;
            assert(follows(m, chain_node(m, n, i as nat)));
        }
    }
    vstd::set_lib::lemma_len_subset(s.to_set(), m.dom());
    if s.no_duplicates() {
        s.unique_seq_to_set();
    }
    let (a, b) = choose|a: int, b: int| 0 <= a < s.len() && 0 <= b < s.len() && a != b && s[a] == s[b];
    let (i, j) = if a < b { (a, b) } else { (b, a) };
    assert forall|k: nat| k <= g implies #[trigger] follows(m, chain_node(m, n, k)) by {
        lemma_cycle_follows(m, n, f, i as nat, (j - i) as nat, k);
    }
}

/// Following more compressed entries than the table has changes nothing:
/// `spec_get_offset` gives what following the chain without bound gives,
/// wherever that ends.
pub proof fn lemma_get_offset_enough_fuel(m: Map<usize, XrefEntry>, object_number: usize, fuel: nat)
    requires
        m.dom().finite(),
        fuel >= m.len(),
    ensures
        spec_locate(m, object_number, fuel) == spec_get_offset(m, object_number),
{
    let f = m.len();
    if all_follow(m, object_number, f) {
        lemma_chain_cycles(m, object_number, f, fuel);
        lemma_locate_exhausted(m, object_number, f);
        lemma_locate_exhausted(m, object_number, fuel);
    } else {
        lemma_locate_stable(m, object_number, f, fuel);
    }
}

/// How an object is located from its own entry and, for a compressed
/// entry, from the entry of its object stream: an entry in use gives its byte
/// offset; free, null and missing entries give nothing; a compressed entry
/// whose stream is in use gives that stream's byte offset with the entry's
/// index; one whose stream has no entry in use (missing, free or null) gives
/// nothing; one whose stream is itself compressed in a stream in use is an
/// error.
pub proof fn lemma_get_offset_cases(m: Map<usize, XrefEntry>, n: usize)
    requires
        m.dom().finite(),
    ensures
        !m.contains_key(n) ==> spec_get_offset(m, n) == Ok::<Option<ByteOffset>, ParseError>(None),
        m.contains_key(n) && (m[n] is Free || m[n] is Null) ==> spec_get_offset(m, n) == Ok::<
            Option<ByteOffset>,
            ParseError,
        >(None),
        m.contains_key(n) && m[n] is InUse ==> spec_get_offset(m, n) == Ok::<Option<ByteOffset>, ParseError>(
            Some(ByteOffset::MainFile(m[n]->byte_offset)),
        ),
        m.contains_key(n) && m[n] is Compressed && m[n]->object_number <= usize::MAX ==> ({
            let st = m[n]->object_number as usize;
            &&& m.contains_key(st) && m[st] is InUse ==> spec_get_offset(m, n) == Ok::<Option<ByteOffset>, ParseError>(
                Some(ByteOffset::ObjectStream { byte_offset: m[st]->byte_offset, index: m[n]->index }),
            )
            &&& (!m.contains_key(st) || m[st] is Free || m[st] is Null) ==> spec_get_offset(m, n) == Ok::<
                Option<ByteOffset>,
                ParseError,
            >(None)
            &&& st != n && m.contains_key(st) && m[st] is Compressed && m[st]->object_number <= usize::MAX
                && m.contains_key(m[st]->object_number as usize) && m[m[st]->object_number as usize] is InUse
                ==> spec_get_offset(m, n) == Err::<Option<ByteOffset>, ParseError>(ParseError::NestedObjectStream)
        }),
{
    if m.contains_key(n) {
        vstd::set_lib::lemma_len_subset(set![n], m.dom());
        assert(set![n].len() == 1);
        let f = m.len();
        assert(f >= 1);
        assert(spec_get_offset(m, n) == spec_locate(m, n, f));
        if m[n] is Compressed && m[n]->object_number <= usize::MAX {
            let st = m[n]->object_number as usize;
            let inner = spec_locate(m, st, (f - 1) as nat);
            if !m.contains_key(st) || m[st] is Free || m[st] is Null {
                assert(inner == Ok::<Option<ByteOffset>, ParseError>(None));
            } else if m[st] is InUse {
                assert(inner == Ok::<Option<ByteOffset>, ParseError>(
                    Some(ByteOffset::MainFile(m[st]->byte_offset)),
                ));
            } else if st != n && m[st] is Compressed && m[st]->object_number <= usize::MAX {
                let t = m[st]->object_number as usize;
                vstd::set_lib::lemma_len_subset(set![n, st], m.dom());
                assert(set![n, st].len() == 2);
                assert(f >= 2);
                if m.contains_key(t) && m[t] is InUse {
                    assert(spec_locate(m, t, (f - 2) as nat) == Ok::<Option<ByteOffset>, ParseError>(
                        Some(ByteOffset::MainFile(m[t]->byte_offset)),
                    ));
                    assert(inner == Ok::<Option<ByteOffset>, ParseError>(
                        Some(ByteOffset::ObjectStream { byte_offset: m[t]->byte_offset, index: m[st]->index }),
                    ));
                }
            }
        }
    }
}

impl Xref {
    pub fn new() -> (r: Xref)
        ensures
            r@ == Map::<usize, XrefEntry>::empty(),
    {
        Xref { objects: HashMap::new() }
    }

    /// Locates the object numbered `object_number`, following at most `fuel`
    /// compressed entries.
    fn locate(&self, object_number: usize, fuel: usize) -> (r: Result<Option<ByteOffset>, ParseError>)
        ensures
            r == spec_locate(self@, object_number, fuel as nat),
        decreases fuel,
    {
        match self.objects.get(&object_number) {
            None => Ok(None),
            Some(XrefEntry::Free { .. }) | Some(XrefEntry::Null) => Ok(None),
            Some(XrefEntry::InUse { byte_offset, .. }) => Ok(Some(ByteOffset::MainFile(*byte_offset))),
            Some(XrefEntry::Compressed { object_number: stream, index }) => {
                let index = *index;
                if *stream > usize::MAX as u64 {
                    return Err(ParseError::IntegerOverflow);
                }
                if fuel == 0 {
                    return Err(ParseError::NestedObjectStream);
                }
                match self.locate(*stream as usize, fuel - 1) {
                    Err(e) => Err(e),
                    Ok(None) => Ok(None),
                    Ok(Some(ByteOffset::MainFile(byte_offset))) => Ok(Some(ByteOffset::ObjectStream { byte_offset, index })),
                    Ok(Some(ByteOffset::ObjectStream { .. })) => Err(ParseError::NestedObjectStream),
                }
            },
        }
    }

    /// Locates the object that `reference` names.
    pub fn get_offset(&self, reference: Reference) -> (r: Result<Option<ByteOffset>, ParseError>)
        ensures
            r == spec_get_offset(self@, reference.object_number),
    {
        self.locate(reference.object_number, self.objects.len())
    }

    /// Adds the entries of an earlier cross-reference section: an object that
    /// this table already describes keeps its entry.
    pub fn merge_with_previous(&mut self, previous: Xref)
        ensures
            final(self)@ == previous@.union_prefer_right(old(self)@),
    {
        let ghost old_self = self@;
        let ghost prev = previous@;
        for (key, value) in it: previous.objects.iter()
            invariant
                prev == previous@,
                forall|k: usize| #[trigger] self@.contains_key(k) <==> (old_self.contains_key(k) || exists|j: int| 0 <= j < it.index() && *it.seq()[j].0 == k),
                forall|k: usize| #[trigger] self@.contains_key(k) ==> self@[k] == (if old_self.contains_key(k) { old_self[k] } else { prev[k] }),
        {
            let ghost i = it.index();
            let ghost before = self@;
            assert(it.seq()[i] == (key, value));
            assert(prev.contains_key(*key) && prev[*key] == *value);
            if !self.objects.contains_key(key) {
                self.objects.insert(*key, *value);
            }
            assert forall|k: usize| #[trigger] self@.contains_key(k) <==> (old_self.contains_key(k)
                || exists|j: int| 0 <= j < i + 1 && *it.seq()[j].0 == k) by {
                if k == *key {
                    assert(*it.seq()[i].0 == k);
                } else if exists|j: int| 0 <= j < i + 1 && *it.seq()[j].0 == k {
                    let j = choose|j: int| 0 <= j < i + 1 && *it.seq()[j].0 == k;
                    assert(j != i);
                    assert(before.contains_key(k));
                }
            }
        }
        assert(self@ =~= prev.union_prefer_right(old_self));
    }
}

} // verus!
