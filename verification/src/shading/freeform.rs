//! Free-form Gouraud-shaded triangle mesh shadings.

use vstd::prelude::*;

use crate::error::{is_unrecognized_integer, ParseError};

verus! {

/// The number of bits that each vertex coordinate of a mesh shading takes
#[derive(Debug, Clone, Copy, PartialEq, Eq, Structural)]
pub enum BitsPerCoordinate {
    One,
    Two,
    Four,
    Eight,
    Sixteen,
    ThirtyTwo,
}

/// The variant of `BitsPerCoordinate` that the integer `i` denotes
pub open spec fn spec_bits_per_coordinate(i: i32) -> Option<BitsPerCoordinate> {
    if i == 1 {
        Some(BitsPerCoordinate::One)
    } else if i == 2 {
        Some(BitsPerCoordinate::Two)
    } else if i == 4 {
        Some(BitsPerCoordinate::Four)
    } else if i == 8 {
        Some(BitsPerCoordinate::Eight)
    } else if i == 16 {
        Some(BitsPerCoordinate::Sixteen)
    } else if i == 32 {
        Some(BitsPerCoordinate::ThirtyTwo)
    } else {
        None
    }
}

impl BitsPerCoordinate {
    /// The variant numbered `i`; an error for any other number.
    pub fn from_integer(i: i32) -> (r: Result<BitsPerCoordinate, ParseError>)
        ensures
            spec_bits_per_coordinate(i) is Some ==> r == Ok::<BitsPerCoordinate, ParseError>(spec_bits_per_coordinate(i)->Some_0),
            spec_bits_per_coordinate(i) is None ==> r is Err && is_unrecognized_integer(r->Err_0, "BitsPerCoordinate"@, i),
    {
        match i {
            1 => Ok(BitsPerCoordinate::One),
            2 => Ok(BitsPerCoordinate::Two),
            4 => Ok(BitsPerCoordinate::Four),
            8 => Ok(BitsPerCoordinate::Eight),
            16 => Ok(BitsPerCoordinate::Sixteen),
            32 => Ok(BitsPerCoordinate::ThirtyTwo),
            _ => Err(ParseError::UnrecognizedInteger { ty: "BitsPerCoordinate", number: i }),
        }
    }
}

/// The number of bits that each vertex flag of a mesh shading takes
#[derive(Debug, Clone, Copy, PartialEq, Eq, Structural)]
pub enum BitsPerFlag {
    Two,
    Four,
    Eight,
}

/// The variant of `BitsPerFlag` that the integer `i` denotes
pub open spec fn spec_bits_per_flag(i: i32) -> Option<BitsPerFlag> {
    if i == 2 {
        Some(BitsPerFlag::Two)
    } else if i == 4 {
        Some(BitsPerFlag::Four)
    } else if i == 8 {
        Some(BitsPerFlag::Eight)
    } else {
        None
    }
}

impl BitsPerFlag {
    /// The variant numbered `i`; an error for any other number.
    pub fn from_integer(i: i32) -> (r: Result<BitsPerFlag, ParseError>)
        ensures
            spec_bits_per_flag(i) is Some ==> r == Ok::<BitsPerFlag, ParseError>(spec_bits_per_flag(i)->Some_0),
            spec_bits_per_flag(i) is None ==> r is Err && is_unrecognized_integer(r->Err_0, "BitsPerFlag"@, i),
    {
        match i {
            2 => Ok(BitsPerFlag::Two),
            4 => Ok(BitsPerFlag::Four),
            8 => Ok(BitsPerFlag::Eight),
            _ => Err(ParseError::UnrecognizedInteger { ty: "BitsPerFlag", number: i }),
        }
    }
}

/// The number of each variant of `BitsPerCoordinate`; no other number denotes one.
pub proof fn lemma_bits_per_coordinate_numbers()
    ensures
        spec_bits_per_coordinate(1) == Some(BitsPerCoordinate::One),
        spec_bits_per_coordinate(2) == Some(BitsPerCoordinate::Two),
        spec_bits_per_coordinate(4) == Some(BitsPerCoordinate::Four),
        spec_bits_per_coordinate(8) == Some(BitsPerCoordinate::Eight),
        spec_bits_per_coordinate(16) == Some(BitsPerCoordinate::Sixteen),
        spec_bits_per_coordinate(32) == Some(BitsPerCoordinate::ThirtyTwo),
        forall|i: i32| #[trigger] spec_bits_per_coordinate(i) is Some ==> i == 1 || i == 2 || i == 4 || i == 8 || i == 16 || i == 32,
{

}

/// The number of each variant of `BitsPerFlag`; no other number denotes one.
pub proof fn lemma_bits_per_flag_numbers()
    ensures
        spec_bits_per_flag(2) == Some(BitsPerFlag::Two),
        spec_bits_per_flag(4) == Some(BitsPerFlag::Four),
        spec_bits_per_flag(8) == Some(BitsPerFlag::Eight),
        forall|i: i32| #[trigger] spec_bits_per_flag(i) is Some ==> i == 2 || i == 4 || i == 8,
{

}

} // verus!
