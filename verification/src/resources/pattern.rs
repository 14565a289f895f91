//! Values of pattern dictionaries.

use vstd::prelude::*;

use crate::error::{is_unrecognized_integer, ParseError};

verus! {

/// The type of a pattern
#[derive(Debug, Clone, Copy, PartialEq, Eq, Structural)]
pub enum PatternType {
    Tiling,
    Shading,
}

/// The variant of `PatternType` that the integer `i` denotes
pub open spec fn spec_pattern_type(i: i32) -> Option<PatternType> {
    if i == 1 {
        Some(PatternType::Tiling)
    } else if i == 2 {
        Some(PatternType::Shading)
    } else {
        None
    }
}

impl PatternType {
    /// The variant numbered `i`; an error for any other number.
    pub fn from_integer(i: i32) -> (r: Result<PatternType, ParseError>)
        ensures
            spec_pattern_type(i) is Some ==> r == Ok::<PatternType, ParseError>(spec_pattern_type(i)->Some_0),
            spec_pattern_type(i) is None ==> r is Err && is_unrecognized_integer(r->Err_0, "PatternType"@, i),
    {
        match i {
            1 => Ok(PatternType::Tiling),
            2 => Ok(PatternType::Shading),
            _ => Err(ParseError::UnrecognizedInteger { ty: "PatternType", number: i }),
        }
    }
}

/// How the cells of a tiling pattern are coloured
#[derive(Debug, Clone, Copy, PartialEq, Eq, Structural)]
pub enum PaintType {
    /// The pattern's content stream shall specify the colours used to paint the pattern
    /// cell.
    Colored,
    /// The pattern's content stream shall not specify any colour information. Instead,
    /// the entire pattern cell is painted with a separately specified colour each time
    /// the pattern is used.
    Uncolored,
}

/// The variant of `PaintType` that the integer `i` denotes
pub open spec fn spec_paint_type(i: i32) -> Option<PaintType> {
    if i == 1 {
        Some(PaintType::Colored)
    } else if i == 2 {
        Some(PaintType::Uncolored)
    } else {
        None
    }
}

impl PaintType {
    /// The variant numbered `i`; an error for any other number.
    pub fn from_integer(i: i32) -> (r: Result<PaintType, ParseError>)
        ensures
            spec_paint_type(i) is Some ==> r == Ok::<PaintType, ParseError>(spec_paint_type(i)->Some_0),
            spec_paint_type(i) is None ==> r is Err && is_unrecognized_integer(r->Err_0, "PaintType"@, i),
    {
        match i {
            1 => Ok(PaintType::Colored),
            2 => Ok(PaintType::Uncolored),
            _ => Err(ParseError::UnrecognizedInteger { ty: "PaintType", number: i }),
        }
    }
}

/// How the cells of a tiling pattern are spaced
#[derive(Debug, Clone, Copy, PartialEq, Eq, Structural)]
pub enum TilingType {
    ConstantSpacing,
    NoDistortion,
    ConstantSpacingAndFasterTiling,
}

/// The variant of `TilingType` that the integer `i` denotes
pub open spec fn spec_tiling_type(i: i32) -> Option<TilingType> {
    if i == 1 {
        Some(TilingType::ConstantSpacing)
    } else if i == 2 {
        Some(TilingType::NoDistortion)
    } else if i == 3 {
        Some(TilingType::ConstantSpacingAndFasterTiling)
    } else {
        None
    }
}

impl TilingType {
    /// The variant numbered `i`; an error for any other number.
    pub fn from_integer(i: i32) -> (r: Result<TilingType, ParseError>)
        ensures
            spec_tiling_type(i) is Some ==> r == Ok::<TilingType, ParseError>(spec_tiling_type(i)->Some_0),
            spec_tiling_type(i) is None ==> r is Err && is_unrecognized_integer(r->Err_0, "TilingType"@, i),
    {
        match i {
            1 => Ok(TilingType::ConstantSpacing),
            2 => Ok(TilingType::NoDistortion),
            3 => Ok(TilingType::ConstantSpacingAndFasterTiling),
            _ => Err(ParseError::UnrecognizedInteger { ty: "TilingType", number: i }),
        }
    }
}

/// The number of each variant of `PatternType`; no other number denotes one.
pub proof fn lemma_pattern_type_numbers()
    ensures
        spec_pattern_type(1) == Some(PatternType::Tiling),
        spec_pattern_type(2) == Some(PatternType::Shading),
        forall|i: i32| #[trigger] spec_pattern_type(i) is Some ==> i == 1 || i == 2,
{

}

/// The number of each variant of `PaintType`; no other number denotes one.
pub proof fn lemma_paint_type_numbers()
    ensures
        spec_paint_type(1) == Some(PaintType::Colored),
        spec_paint_type(2) == Some(PaintType::Uncolored),
        forall|i: i32| #[trigger] spec_paint_type(i) is Some ==> i == 1 || i == 2,
{

}

/// The number of each variant of `TilingType`; no other number denotes one.
pub proof fn lemma_tiling_type_numbers()
    ensures
        spec_tiling_type(1) == Some(TilingType::ConstantSpacing),
        spec_tiling_type(2) == Some(TilingType::NoDistortion),
        spec_tiling_type(3) == Some(TilingType::ConstantSpacingAndFasterTiling),
        forall|i: i32| #[trigger] spec_tiling_type(i) is Some ==> i == 1 || i == 2 || i == 3,
{

}

} // verus!
