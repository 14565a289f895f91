//! Image external objects.

use vstd::prelude::*;

verus! {

/// The image mask flag of an image dictionary
#[derive(Debug, Clone)]
pub struct ImageMask;

} // verus!
