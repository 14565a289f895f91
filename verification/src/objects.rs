use vstd::prelude::*;

verus! {

/// The kinds of object that can appear in a PDF file
#[derive(Debug, Clone, Copy, PartialEq, Eq, Structural)]
pub enum ObjectType {
    Null,
    Boolean,
    Integer,
    Real,
    String,
    Name,
    Array,
    Stream,
    Dictionary,
    Reference,
}

/// An indirect reference to an object in the file.
///
/// A reference to a non-existing object is considered a `null`
#[derive(Debug, Clone, Copy, PartialEq, Eq, Hash, Structural)]
pub struct Reference {
    pub object_number: usize,
    pub generation: usize,
}

/// A name object: an atomic symbol, written in a file as a slash followed by
/// its characters
#[derive(Debug, Clone, PartialEq, Eq)]
pub struct Name(pub String);

impl Reference {
    pub fn new(object_number: usize, generation: usize) -> (r: Reference)
        ensures
            r.object_number == object_number,
            r.generation == generation,
    {
        Reference { object_number, generation }
    }
}

/// Whether the name `s` is the literal `lit`
pub fn name_is(s: &str, lit: &str) -> (r: bool)
    ensures
        r == (s@ == lit@),
{
    let a = s.to_owned();
    let b = lit.to_owned();
    a == b
}

} // verus!
