//! Errors raised while rendering a page.

use vstd::prelude::*;

verus! {

/// An error raised while rendering a page
#[derive(Debug, Clone, Copy, PartialEq, Eq, Structural)]
pub enum PdfRenderError {
    StackUnderflow,
}

impl PdfRenderError {
    /// The text that describes the error: the name of its variant
    pub fn to_string(&self) -> (r: String)
        ensures
            r@ == "StackUnderflow"@,
    {
        match self {
            PdfRenderError::StackUnderflow => "StackUnderflow".to_owned(),
        }
    }
}

} // verus!
