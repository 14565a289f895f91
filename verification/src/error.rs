use vstd::prelude::*;

verus! {

/// Errors raised while parsing a PDF file
#[derive(Debug, Clone, PartialEq, Eq)]
pub enum ParseError {
    /// The input ended before the construct being read was complete
    UnexpectedEof,
    /// The bytes at the cursor are not the expected literal
    MismatchedBytes,
    /// An end-of-line marker was expected
    ExpectedEol,
    /// One of several bytes was expected; `found` is the byte that was seen
    MismatchedByteMany { expected: &'static [u8], found: Option<u8> },
    /// A number was missing or does not fit its target type
    InvalidNumber,
    /// The `startxref` keyword does not occur in the file
    StartXrefNotFound,
    /// An arithmetic result does not fit its target type
    IntegerOverflow,
    /// A field of a cross-reference stream reaches past the end of the stream
    TruncatedXrefStream,
    /// An integer field of a cross-reference stream is longer than eight bytes
    XrefFieldTooWide,
    /// A required field of a cross-reference stream is absent
    MissingXrefField,
    /// A compressed object is said to live in an object stream that is itself compressed
    NestedObjectStream,
    /// An array does not have the number of elements its role demands
    ArrayOfInvalidLength { expected: usize },
    /// A decoded cross-reference stream holds bytes after its last entry
    XrefStreamLengthMismatch,
    /// The cross-reference section at this offset is a cross-reference stream
    XrefStreamAtOffset { offset: usize },
    /// A name does not denote any variant of the enumeration `ty`
    UnrecognizedVariant { ty: &'static str, name: String },
    /// An integer does not denote any variant of the enumeration `ty`
    UnrecognizedInteger { ty: &'static str, number: i32 },
}

/// The bytes that may begin an entry's kind: `f` (free) and `n` (in use)
pub const ENTRY_KIND_BYTES: [u8; 2] = [102, 110];

/// The bytes that may follow a cross-reference subsection: `t` (the
/// trailer) or a digit (another subsection)
pub const SECTION_END_BYTES: [u8; 11] = [116, 48, 49, 50, 51, 52, 53, 54, 55, 56, 57];

/// `e` reports that the name `found` denotes no variant of `ty`
pub open spec fn is_unrecognized_name(e: ParseError, ty: Seq<char>, found: Seq<char>) -> bool {
    e matches ParseError::UnrecognizedVariant { ty: t, name: n } && t@ == ty && n@ == found
}

/// `e` reports that the integer `found` denotes no variant of `ty`
pub open spec fn is_unrecognized_integer(e: ParseError, ty: Seq<char>, found: i32) -> bool {
    e matches ParseError::UnrecognizedInteger { ty: t, number: n } && t@ == ty && n == found
}

} // verus!
