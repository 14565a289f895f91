//! Rendering: the values and index arithmetic that drawing a page needs.

pub mod canvas;
pub mod error;
pub mod text_state;
pub mod wgpu;

use vstd::prelude::*;

use crate::error::{is_unrecognized_integer, ParseError};

verus! {

/// Whether a zero colour component in DeviceCMYK erases what lies beneath when overprinting
#[derive(Debug, Clone, Copy, PartialEq, Eq, Structural)]
pub enum OverprintMode {
    Zero,
    NonZero,
}

/// The variant of `OverprintMode` that the integer `i` denotes
pub open spec fn spec_overprint_mode(i: i32) -> Option<OverprintMode> {
    if i == 0 {
        Some(OverprintMode::Zero)
    } else if i == 1 {
        Some(OverprintMode::NonZero)
    } else {
        None
    }
}

impl OverprintMode {
    /// The variant numbered `i`; an error for any other number.
    pub fn from_integer(i: i32) -> (r: Result<OverprintMode, ParseError>)
        ensures
            spec_overprint_mode(i) is Some ==> r == Ok::<OverprintMode, ParseError>(spec_overprint_mode(i)->Some_0),
            spec_overprint_mode(i) is None ==> r is Err && is_unrecognized_integer(r->Err_0, "OverprintMode"@, i),
    {
        match i {
            0 => Ok(OverprintMode::Zero),
            1 => Ok(OverprintMode::NonZero),
            _ => Err(ParseError::UnrecognizedInteger { ty: "OverprintMode", number: i }),
        }
    }
}

/// The number of each variant of `OverprintMode`; no other number denotes one.
pub proof fn lemma_overprint_mode_numbers()
    ensures
        spec_overprint_mode(0) == Some(OverprintMode::Zero),
        spec_overprint_mode(1) == Some(OverprintMode::NonZero),
        forall|i: i32| #[trigger] spec_overprint_mode(i) is Some ==> i == 0 || i == 1,
{

}

} // verus!
