//! Reading PDF files: cross-reference tables and streams, object streams,
//! Type 1 font programs and the named values of PDF dictionaries.

use vstd::prelude::*;

use crate::error::ParseError;

pub mod error;
pub mod lex;
pub mod objects;
pub mod xref;
pub mod simple_xref;
pub mod parse_binary;
pub mod postscript;
pub mod resources;
pub mod optional_content;
pub mod page;
pub mod render;
pub mod shading;
pub mod structure;
pub mod viewer_preferences;
pub mod xobject;
pub mod object_stream;

verus! {

/// Checks that an array has the number of elements its role demands.
pub fn assert_len<T>(arr: &[T], len: usize) -> (r: Result<(), ParseError>)
    ensures
        arr@.len() == len ==> r == Ok::<(), ParseError>(()),
        arr@.len() != len ==> r == Err::<(), ParseError>(ParseError::ArrayOfInvalidLength { expected: len }),
{
    if arr.len() != len {
        return Err(ParseError::ArrayOfInvalidLength { expected: len });
    }
    Ok(())
}

} // verus!
