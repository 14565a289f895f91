//! External objects.

pub mod image;

use vstd::prelude::*;

use crate::error::{is_unrecognized_name, ParseError};
use crate::objects::name_is;

verus! {

/// The subtype of an external object
#[derive(Debug, Clone, Copy, PartialEq, Eq, Structural)]
pub enum XObjectSubtype {
    PostScript,
    Image,
    Form,
}

/// The variant of `XObjectSubtype` that the name `s` denotes
pub open spec fn spec_x_object_subtype(s: Seq<char>) -> Option<XObjectSubtype> {
    if s == "PS"@ {
        Some(XObjectSubtype::PostScript)
    } else if s == "Image"@ {
        Some(XObjectSubtype::Image)
    } else if s == "Form"@ {
        Some(XObjectSubtype::Form)
    } else {
        None
    }
}

impl XObjectSubtype {
    /// The variant named `s`; an error for any other name.
    pub fn from_str(s: &str) -> (r: Result<XObjectSubtype, ParseError>)
        ensures
            spec_x_object_subtype(s@) is Some ==> r == Ok::<XObjectSubtype, ParseError>(spec_x_object_subtype(s@)->Some_0),
            spec_x_object_subtype(s@) is None ==> r is Err && is_unrecognized_name(r->Err_0, "XObjectSubtype"@, s@),
    {
        if name_is(s, "PS") {
            return Ok(XObjectSubtype::PostScript);
        }
        if name_is(s, "Image") {
            return Ok(XObjectSubtype::Image);
        }
        if name_is(s, "Form") {
            return Ok(XObjectSubtype::Form);
        }
        Err(ParseError::UnrecognizedVariant { ty: "XObjectSubtype", name: s.to_owned() })
    }
}

/// An OPI (Open Prepress Interface) dictionary
#[derive(Debug, Clone)]
pub struct OpenPrepressInterface;

/// The name of each variant of `XObjectSubtype`; no other name denotes one.
pub proof fn lemma_x_object_subtype_names()
    ensures
        spec_x_object_subtype("PS"@) == Some(XObjectSubtype::PostScript),
        spec_x_object_subtype("Image"@) == Some(XObjectSubtype::Image),
        spec_x_object_subtype("Form"@) == Some(XObjectSubtype::Form),
        forall|s: Seq<char>| #[trigger] spec_x_object_subtype(s) is Some ==> s == "PS"@ || s == "Image"@ || s == "Form"@,
{
    reveal_strlit("PS");
    reveal_strlit("Image");
    reveal_strlit("Form");
    assert("PS"@.len() != "Image"@.len());
    assert("PS"@.len() != "Form"@.len());
    assert("Image"@.len() != "Form"@.len());
}

} // verus!
