//! The text state parameters of the graphics state.

use vstd::prelude::*;

use crate::error::{is_unrecognized_integer, ParseError};

verus! {

/// Whether glyphs are filled, stroked, used as a clipping boundary, or some combination
#[derive(Debug, Clone, Copy, PartialEq, Eq, Structural)]
pub enum TextRenderingMode {
    Fill,
    Stroke,
    FillThenStroke,
    Invisible,
    FillAndAddToClipping,
    StrokeAndAddToClipping,
    FillThenStrokeAndAddToClipping,
    AddToClipping,
}

/// The variant of `TextRenderingMode` that the integer `i` denotes
pub open spec fn spec_text_rendering_mode(i: i32) -> Option<TextRenderingMode> {
    if i == 0 {
        Some(TextRenderingMode::Fill)
    } else if i == 1 {
        Some(TextRenderingMode::Stroke)
    } else if i == 2 {
        Some(TextRenderingMode::FillThenStroke)
    } else if i == 3 {
        Some(TextRenderingMode::Invisible)
    } else if i == 4 {
        Some(TextRenderingMode::FillAndAddToClipping)
    } else if i == 5 {
        Some(TextRenderingMode::StrokeAndAddToClipping)
    } else if i == 6 {
        Some(TextRenderingMode::FillThenStrokeAndAddToClipping)
    } else if i == 7 {
        Some(TextRenderingMode::AddToClipping)
    } else {
        None
    }
}

impl TextRenderingMode {
    /// The variant numbered `i`; an error for any other number.
    pub fn from_integer(i: i32) -> (r: Result<TextRenderingMode, ParseError>)
        ensures
            spec_text_rendering_mode(i) is Some ==> r == Ok::<TextRenderingMode, ParseError>(spec_text_rendering_mode(i)->Some_0),
            spec_text_rendering_mode(i) is None ==> r is Err && is_unrecognized_integer(r->Err_0, "TextRenderingMode"@, i),
    {
        match i {
            0 => Ok(TextRenderingMode::Fill),
            1 => Ok(TextRenderingMode::Stroke),
            2 => Ok(TextRenderingMode::FillThenStroke),
            3 => Ok(TextRenderingMode::Invisible),
            4 => Ok(TextRenderingMode::FillAndAddToClipping),
            5 => Ok(TextRenderingMode::StrokeAndAddToClipping),
            6 => Ok(TextRenderingMode::FillThenStrokeAndAddToClipping),
            7 => Ok(TextRenderingMode::AddToClipping),
            _ => Err(ParseError::UnrecognizedInteger { ty: "TextRenderingMode", number: i }),
        }
    }
}

/// The number of each variant of `TextRenderingMode`; no other number denotes one.
pub proof fn lemma_text_rendering_mode_numbers()
    ensures
        spec_text_rendering_mode(0) == Some(TextRenderingMode::Fill),
        spec_text_rendering_mode(1) == Some(TextRenderingMode::Stroke),
        spec_text_rendering_mode(2) == Some(TextRenderingMode::FillThenStroke),
        spec_text_rendering_mode(3) == Some(TextRenderingMode::Invisible),
        spec_text_rendering_mode(4) == Some(TextRenderingMode::FillAndAddToClipping),
        spec_text_rendering_mode(5) == Some(TextRenderingMode::StrokeAndAddToClipping),
        spec_text_rendering_mode(6) == Some(TextRenderingMode::FillThenStrokeAndAddToClipping),
        spec_text_rendering_mode(7) == Some(TextRenderingMode::AddToClipping),
        forall|i: i32| #[trigger] spec_text_rendering_mode(i) is Some ==> i == 0 || i == 1 || i == 2 || i == 3 || i == 4 || i == 5 || i == 6 || i == 7,
{

}

} // verus!
