//! PostScript strings, access attributes and the indexed containers that
//! hold composite objects.

use core::cmp::Ordering;

use vstd::prelude::*;
use vstd::std_specs::cmp::PartialOrdSpecImpl;

use super::error::PostScriptError;

verus! {

/// The access attribute of a composite object
#[derive(Debug, Clone, Copy, PartialEq, Eq, Structural)]
pub enum Access {
    /// Normally, objects have unlimited access: all operations defined for that
    /// object are allowed. However, packed array objects always have read-only
    /// (or even more restricted) access
    Unlimited,
    /// An object with read-only access may not have its value written, but may
    /// still be read or executed
    ReadOnly,
    /// An object with execute-only access may not have its value either read or
    /// written, but may still be executed by the PostScript interpreter
    ExecuteOnly,
    /// An object with no access may not be operated on in any way by a PostScript
    /// language program
    NoAccess,
}

impl Default for Access {
    fn default() -> (r: Access)
        ensures
            r == Access::Unlimited,
    {
        Access::Unlimited
    }
}

/// A PostScript string: a fixed-capacity byte buffer with an access attribute
#[derive(Debug, Clone)]
pub struct PostScriptString {
    inner: Vec<u8>,
    access: Access,
    len: usize,
    capacity: usize,
}

impl View for PostScriptString {
    type V = Seq<u8>;

    open spec fn view(&self) -> Seq<u8> {
        self.bytes()
    }
}

impl PostScriptString {
    /// The bytes of the string
    pub closed spec fn bytes(&self) -> Seq<u8> {
        self.inner@
    }

    /// The access attribute
    pub closed spec fn access_view(&self) -> Access {
        self.access
    }

    /// The number of bytes written so far; `write` appends after them
    pub closed spec fn written(&self) -> nat {
        self.len as nat
    }

    /// The capacity the string was made with
    pub closed spec fn capacity_view(&self) -> nat {
        self.capacity as nat
    }

    /// The string holds exactly `capacity` bytes, of which the first
    /// `written` count as written.
    pub closed spec fn well_formed(&self) -> bool {
        self.inner@.len() == self.capacity && self.len <= self.capacity
    }

    /// A string of `capacity` zero bytes, none of them written yet.
    pub fn with_capacity(capacity: usize) -> (r: PostScriptString)
        ensures
            r.well_formed(),
            r.bytes() == Seq::new(capacity as nat, |_i: int| 0u8),
            r.written() == 0,
            r.capacity_view() == capacity,
            r.access_view() == Access::Unlimited,
    {
        let mut inner: Vec<u8> = Vec::new();
        let mut i: usize = 0;
        while i < capacity
            invariant
                i <= capacity,
                inner@ == Seq::new(i as nat, |_i: int| 0u8),
            decreases capacity - i,
        {
            inner.push(0);
            i = i + 1;
            assert(inner@ =~= Seq::new(i as nat, |_i: int| 0u8));
        }
        Self { capacity, len: 0, inner, access: Access::Unlimited }
    }

    /// A string holding `inner`, all of it written.
    pub fn from_bytes(inner: Vec<u8>) -> (r: PostScriptString)
        ensures
            r.well_formed(),
            r.bytes() == inner@,
            r.written() == inner@.len(),
            r.capacity_view() == inner@.len(),
            r.access_view() == Access::Unlimited,
    {
        let len = inner.len();
        Self { len, capacity: len, inner, access: Access::Unlimited }
    }

    pub fn set_access(&mut self, access: Access)
        ensures
            final(self).access_view() == access,
            final(self).bytes() == old(self).bytes(),
            final(self).written() == old(self).written(),
            final(self).capacity_view() == old(self).capacity_view(),
            old(self).well_formed() ==> final(self).well_formed(),
    {
        self.access = access;
    }

    /// The capacity the string was made with
    pub fn capacity(&self) -> (r: usize)
        ensures
            r == self.capacity_view(),
    {
        self.capacity
    }

    /// Copies `bytes` into the string just after its written bytes. The
    /// count of written bytes stays as it is.
    pub fn write(&mut self, bytes: &[u8])
        requires
            old(self).well_formed(),
            bytes@.len() <= old(self).capacity_view() - old(self).written(),
        ensures
            final(self).well_formed(),
            final(self).bytes() == old(self).bytes().subrange(0, old(self).written() as int) + bytes@
                + old(self).bytes().subrange((old(self).written() + bytes@.len()) as int, old(self).capacity_view() as int),
            final(self).written() == old(self).written(),
            final(self).capacity_view() == old(self).capacity_view(),
            final(self).access_view() == old(self).access_view(),
    {
        let start = self.len;
        let mut i: usize = 0;
        while i < bytes.len()
            invariant
                self.inner@.len() == old(self).inner@.len(),
                self.len == old(self).len,
                self.capacity == old(self).capacity,
                self.access == old(self).access,
                start == self.len,
                self.inner@.len() == self.capacity,
                start + bytes@.len() <= self.capacity,
                i <= bytes@.len(),
                forall|j: int| 0 <= j < start ==> self.inner@[j] == old(self).inner@[j],
                forall|j: int| start <= j < start + i ==> self.inner@[j] == bytes@[j - start],
                forall|j: int| start + bytes@.len() <= j < self.capacity ==> self.inner@[j] == old(self).inner@[j],
            decreases bytes@.len() - i,
        {
            self.inner.set(start + i, bytes[i]);
            i = i + 1;
        }
        assert(self.inner@ =~= old(self).inner@.subrange(0, start as int) + bytes@ + old(self).inner@.subrange(
            start + bytes@.len(),
            self.capacity as int,
        ));
    }

    /// Sets the byte at `idx`.
    pub fn put(&mut self, idx: usize, byte: u8)
        requires
            idx < old(self).bytes().len(),
        ensures
            final(self).bytes() == old(self).bytes().update(idx as int, byte),
            final(self).written() == old(self).written(),
            final(self).capacity_view() == old(self).capacity_view(),
            final(self).access_view() == old(self).access_view(),
            old(self).well_formed() ==> final(self).well_formed(),
    {
        self.inner.set(idx, byte);
    }

    /// The byte at `idx`; a range check error past the end.
    pub fn get(&self, idx: usize) -> (r: Result<u8, PostScriptError>)
        ensures
            idx < self.bytes().len() ==> r == Ok::<u8, PostScriptError>(self.bytes()[idx as int]),
            idx >= self.bytes().len() ==> r == Err::<u8, PostScriptError>(PostScriptError::RangeCheck),
    {
        if idx < self.inner.len() {
            Ok(self.inner[idx])
        } else {
            Err(PostScriptError::RangeCheck)
        }
    }

    /// The number of bytes the string holds
    pub fn len(&self) -> (r: usize)
        ensures
            r == self.bytes().len(),
    {
        self.inner.len()
    }

    pub fn is_empty(&self) -> (r: bool)
        ensures
            r == (self.bytes().len() == 0),
    {
        self.len() == 0
    }

    pub fn as_bytes(&self) -> (r: &[u8])
        ensures
            r@ == self.bytes(),
    {
        self.inner.as_slice()
    }

    pub fn into_bytes(self) -> (r: Vec<u8>)
        ensures
            r@ == self.bytes(),
    {
        self.inner
    }

    /// Whether the two strings hold the same bytes
    pub fn same_bytes(&self, other: &PostScriptString) -> (r: bool)
        ensures
            r == (self.bytes() == other.bytes()),
    {
        bytes_equal(self.inner.as_slice(), other.inner.as_slice())
    }
}

impl PartialEq for PostScriptString {
    fn eq(&self, other: &PostScriptString) -> (r: bool) {
        bytes_equal(self.inner.as_slice(), other.inner.as_slice())
    }
}

impl Eq for PostScriptString {
}

/// The first position from `i` on where `a` and `b` differ, or where one
/// of them ends
pub open spec fn diff_from(a: Seq<u8>, b: Seq<u8>, i: int) -> int
    decreases a.len() - i,
{
    if i < 0 || i >= a.len() || i >= b.len() || a[i] != b[i] {
        i
    } else {
        diff_from(a, b, i + 1)
    }
}

/// The first position where `a` and `b` differ, or where one of them ends.
pub fn first_difference(a: &[u8], b: &[u8]) -> (r: usize)
    ensures
        r == diff_from(a@, b@, 0),
        r <= a@.len(),
        r <= b@.len(),
{
    let mut i: usize = 0;
    while i < a.len() && i < b.len() && a[i] == b[i]
        invariant
            i <= a@.len(),
            i <= b@.len(),
            diff_from(a@, b@, 0) == diff_from(a@, b@, i as int),
        decreases a@.len() - i,
    {
        i = i + 1;
    }
    i
}

proof fn lemma_diff_from(a: Seq<u8>, b: Seq<u8>, i: int)
    requires
        0 <= i <= a.len(),
        i <= b.len(),
    ensures
        i <= diff_from(a, b, i) <= a.len(),
        diff_from(a, b, i) <= b.len(),
        forall|j: int| i <= j < diff_from(a, b, i) ==> a[j] == b[j],
        diff_from(a, b, i) < a.len() && diff_from(a, b, i) < b.len() ==> a[diff_from(a, b, i)] != b[diff_from(
            a,
            b,
            i,
        )],
    decreases a.len() - i,
{
    if i < a.len() && i < b.len() && a[i] == b[i] {
        lemma_diff_from(a, b, i + 1);
    }
}

/// Two strings of bytes are equal exactly when neither orders before the
/// other, so the order of strings agrees with their equality.
pub proof fn lemma_bytes_order_equal(a: Seq<u8>, b: Seq<u8>)
    ensures
        (bytes_order(a, b) == Ordering::Equal) == (a == b),
{
    lemma_diff_from(a, b, 0);
    if bytes_order(a, b) == Ordering::Equal {
        assert(a =~= b);
    }
}

/// The order of two byte strings: by their first differing byte, and a
/// proper prefix before the longer string
pub open spec fn bytes_order(a: Seq<u8>, b: Seq<u8>) -> Ordering {
    let d = diff_from(a, b, 0);
    if d < a.len() && d < b.len() {
        if a[d] < b[d] {
            Ordering::Less
        } else {
            Ordering::Greater
        }
    } else if a.len() < b.len() {
        Ordering::Less
    } else if a.len() > b.len() {
        Ordering::Greater
    } else {
        Ordering::Equal
    }
}

/// Compares two byte strings in the order `bytes_order`.
pub fn compare_bytes(a: &[u8], b: &[u8]) -> (r: Ordering)
    ensures
        r == bytes_order(a@, b@),
{
    let d = first_difference(a, b);
    if d < a.len() && d < b.len() {
        if a[d] < b[d] {
            Ordering::Less
        } else {
            Ordering::Greater
        }
    } else if a.len() < b.len() {
        Ordering::Less
    } else if a.len() > b.len() {
        Ordering::Greater
    } else {
        Ordering::Equal
    }
}

impl PartialOrd for PostScriptString {
    fn partial_cmp(&self, other: &PostScriptString) -> (r: Option<Ordering>) {
        Some(compare_bytes(self.inner.as_slice(), other.inner.as_slice()))
    }
}

impl PartialOrdSpecImpl for PostScriptString {
    open spec fn obeys_partial_cmp_spec() -> bool {
        true
    }

    open spec fn partial_cmp_spec(&self, other: &PostScriptString) -> Option<Ordering> {
        Some(bytes_order(self.bytes(), other.bytes()))
    }
}

impl vstd::std_specs::cmp::PartialEqSpecImpl for PostScriptString {
    open spec fn obeys_eq_spec() -> bool {
        true
    }

    open spec fn eq_spec(&self, other: &PostScriptString) -> bool {
        self.bytes() == other.bytes()
    }
}

/// Whether two byte slices are equal
pub fn bytes_equal(a: &[u8], b: &[u8]) -> (r: bool)
    ensures
        r == (a@ == b@),
{
    if a.len() != b.len() {
        return false;
    }
    let mut i: usize = 0;
    while i < a.len()
        invariant
            a@.len() == b@.len(),
            i <= a@.len(),
            forall|j: int| 0 <= j < i ==> a@[j] == b@[j],
        decreases a@.len() - i,
    {
        if a[i] != b[i] {
            return false;
        }
        i = i + 1;
    }
    assert(a@ =~= b@);
    true
}

/// An index type that counts up from zero
pub trait Increment: Sized {
    /// The number that the index stands for
    spec fn index(&self) -> nat;

    /// Initial value
    fn init() -> (r: Self)
        ensures
            r.index() == 0,
    ;

    /// Increments self by 1. Returns previous value
    fn increment(&mut self) -> (r: Self)
        requires
            old(self).index() < usize::MAX,
        ensures
            r.index() == old(self).index(),
            final(self).index() == old(self).index() + 1,
    ;

    /// The number that the index stands for
    fn as_usize(&self) -> (r: usize)
        ensures
            r == self.index(),
    ;
}

/// The index of an array in its container
#[derive(Debug, Clone, Copy, PartialEq, Eq, Hash, Structural)]
pub struct ArrayIndex(pub usize);

/// The index of a string in its container
#[derive(Debug, Clone, Copy, PartialEq, Eq, Hash, Structural)]
pub struct StringIndex(pub usize);

/// The index of a dictionary in its container
#[derive(Debug, Clone, Copy, PartialEq, Eq, Hash, Structural)]
pub struct DictionaryIndex(pub usize);

impl Increment for ArrayIndex {
    open spec fn index(&self) -> nat {
        self.0 as nat
    }

    fn init() -> (r: Self) {
        Self(0)
    }

    fn increment(&mut self) -> (r: Self) {
        let prev = self.0;
        self.0 = self.0 + 1;
        Self(prev)
    }

    fn as_usize(&self) -> (r: usize) {
        self.0
    }
}

impl Increment for StringIndex {
    open spec fn index(&self) -> nat {
        self.0 as nat
    }

    fn init() -> (r: Self) {
        Self(0)
    }

    fn increment(&mut self) -> (r: Self) {
        let prev = self.0;
        self.0 = self.0 + 1;
        Self(prev)
    }

    fn as_usize(&self) -> (r: usize) {
        self.0
    }
}

impl Increment for DictionaryIndex {
    open spec fn index(&self) -> nat {
        self.0 as nat
    }

    fn init() -> (r: Self) {
        Self(0)
    }

    fn increment(&mut self) -> (r: Self) {
        let prev = self.0;
        self.0 = self.0 + 1;
        Self(prev)
    }

    fn as_usize(&self) -> (r: usize) {
        self.0
    }
}

/// A store of values that hands out a fresh index for each value inserted.
///
/// The indices handed out are 0, 1, 2, ... in insertion order, so the values
/// are kept in a vector in that order.
#[derive(Debug)]
pub struct Container<K: Increment, V> {
    map: Vec<V>,
    counter: K,
}

impl<K: Increment, V> Container<K, V> {
    /// The values inserted so far, in insertion order: the value at position
    /// `i` is the one whose index is `i`.
    pub closed spec fn values(&self) -> Seq<V> {
        self.map@
    }

    /// The counter stands one past the last index handed out.
    pub closed spec fn well_formed(&self) -> bool {
        self.counter.index() == self.map@.len()
    }

    pub fn new() -> (r: Self)
        ensures
            r.well_formed(),
            r.values() == Seq::<V>::empty(),
    {
        Self { map: Vec::new(), counter: K::init() }
    }

    /// Stores `v` and returns its index, which no earlier value has.
    pub fn insert(&mut self, v: V) -> (r: K)
        requires
            old(self).well_formed(),
            old(self).values().len() < usize::MAX,
        ensures
            final(self).well_formed(),
            r.index() == old(self).values().len(),
            final(self).values() == old(self).values().push(v),
    {
        let idx = self.counter.increment();
        self.map.push(v);
        idx
    }

    /// The value stored under `k`, if any.
    pub fn get(&self, k: &K) -> (r: Option<&V>)
        requires
            self.well_formed(),
        ensures
            k.index() < self.values().len() ==> r == Some(&self.values()[k.index() as int]),
            k.index() >= self.values().len() ==> r is None,
    {
        let i = k.as_usize();
        if i < self.map.len() {
            Some(&self.map[i])
        } else {
            None
        }
    }

    /// A mutable borrow of the value stored under `k`, if any.
    pub fn get_mut(&mut self, k: &K) -> (r: Option<&mut V>)
        requires
            old(self).well_formed(),
        ensures
            k.index() < old(self).values().len() ==> r is Some
                && *r->Some_0 == old(self).values()[k.index() as int]
                && final(self).values() == old(self).values().update(k.index() as int, *final(r->Some_0)),
            k.index() >= old(self).values().len() ==> r is None && final(self).values() == old(self).values(),
            final(self).well_formed(),
    {
        let i = k.as_usize();
        if i < self.map.len() {
            Some(&mut self.map[i])
        } else {
            None
        }
    }
}

/// A value stored with `insert` is what `get` finds under the index that
/// `insert` returned, and the values stored before it stay under their
/// indices.
pub proof fn lemma_get_after_insert<K: Increment, V>(before: Seq<V>, after: Seq<V>, v: V, k: K)
    requires
        after == before.push(v),
        k.index() == before.len(),
    ensures
        k.index() < after.len(),
        after[k.index() as int] == v,
        forall|i: int| 0 <= i < before.len() ==> after[i] == before[i],
{
}

/// Bytes written into a string are read back from just after its written
/// bytes, and the bytes around them stay as they were.
pub proof fn lemma_read_after_write(before: Seq<u8>, written: nat, bytes: Seq<u8>)
    requires
        written + bytes.len() <= before.len(),
    ensures
        ({
            let after = before.subrange(0, written as int) + bytes + before.subrange(
                (written + bytes.len()) as int,
                before.len() as int,
            );
            &&& after.len() == before.len()
            &&& after.subrange(written as int, (written + bytes.len()) as int) == bytes
            &&& forall|i: int|
                0 <= i < before.len() && !(written <= i < written + bytes.len()) ==> after[i] == before[i]
        }),
{
    let after = before.subrange(0, written as int) + bytes + before.subrange(
        (written + bytes.len()) as int,
        before.len() as int,
    );
    assert(after.subrange(written as int, (written + bytes.len()) as int) =~= bytes);
}

} // verus!
