use vstd::prelude::*;

verus! {

/// PostScript errors (PostScript Language Reference, page 523)
#[derive(Debug, Clone, Copy, PartialEq, Eq, Structural)]
pub enum PostScriptError {
    /// No more room in dictionary
    DictionaryFull,
    /// Too many begin operators
    DictStackOverflow,
    /// Too many end operators
    DictStackUnderflow,
    /// Executive stack nesting too deep
    ExecStackOverflow,
    /// Operand stack overflow
    StackOverflow,
    /// Operand stack underflow
    StackUnderflow,
    /// Operand of wrong type
    TypeCheck,
    /// Operand out of bounds
    RangeCheck,
    /// Invalid Font resource name or font or CIDFont dictionary
    InvalidFont,
    /// A charstring ends inside a multi-byte number or operator
    TruncatedCharString,
    /// A charstring byte, or the byte after an escape byte (12), is no operator
    InvalidCharStringOperator { escaped: bool, code: u8 },
}

} // verus!
