//! Shading dictionaries.

pub mod freeform;

use vstd::prelude::*;

use crate::error::{is_unrecognized_integer, ParseError};

verus! {

/// The type of a shading dictionary
#[derive(Debug, Clone, Copy, PartialEq, Eq, Structural)]
pub enum ShadingType {
    FunctionBased,
    Axial,
    Radial,
    /// Free-form Gouraud-shaded triangle mesh
    Freeform,
    /// Lattice-form Gouraud-shaded triangle mesh
    Latticeform,
    CoonsPatchMesh,
    TensorProductPatchMesh,
}

/// The variant of `ShadingType` that the integer `i` denotes
pub open spec fn spec_shading_type(i: i32) -> Option<ShadingType> {
    if i == 1 {
        Some(ShadingType::FunctionBased)
    } else if i == 2 {
        Some(ShadingType::Axial)
    } else if i == 3 {
        Some(ShadingType::Radial)
    } else if i == 4 {
        Some(ShadingType::Freeform)
    } else if i == 5 {
        Some(ShadingType::Latticeform)
    } else if i == 6 {
        Some(ShadingType::CoonsPatchMesh)
    } else if i == 7 {
        Some(ShadingType::TensorProductPatchMesh)
    } else {
        None
    }
}

impl ShadingType {
    /// The variant numbered `i`; an error for any other number.
    pub fn from_integer(i: i32) -> (r: Result<ShadingType, ParseError>)
        ensures
            spec_shading_type(i) is Some ==> r == Ok::<ShadingType, ParseError>(spec_shading_type(i)->Some_0),
            spec_shading_type(i) is None ==> r is Err && is_unrecognized_integer(r->Err_0, "ShadingType"@, i),
    {
        match i {
            1 => Ok(ShadingType::FunctionBased),
            2 => Ok(ShadingType::Axial),
            3 => Ok(ShadingType::Radial),
            4 => Ok(ShadingType::Freeform),
            5 => Ok(ShadingType::Latticeform),
            6 => Ok(ShadingType::CoonsPatchMesh),
            7 => Ok(ShadingType::TensorProductPatchMesh),
            _ => Err(ParseError::UnrecognizedInteger { ty: "ShadingType", number: i }),
        }
    }
}

/// The number of each variant of `ShadingType`; no other number denotes one.
pub proof fn lemma_shading_type_numbers()
    ensures
        spec_shading_type(1) == Some(ShadingType::FunctionBased),
        spec_shading_type(2) == Some(ShadingType::Axial),
        spec_shading_type(3) == Some(ShadingType::Radial),
        spec_shading_type(4) == Some(ShadingType::Freeform),
        spec_shading_type(5) == Some(ShadingType::Latticeform),
        spec_shading_type(6) == Some(ShadingType::CoonsPatchMesh),
        spec_shading_type(7) == Some(ShadingType::TensorProductPatchMesh),
        forall|i: i32| #[trigger] spec_shading_type(i) is Some ==> i == 1 || i == 2 || i == 3 || i == 4 || i == 5 || i == 6 || i == 7,
{

}

} // verus!
