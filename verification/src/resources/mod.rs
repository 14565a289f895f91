//! Resource dictionaries: procedure sets, graphics state parameters and
//! patterns.

pub mod graphics_state_parameters;
pub mod pattern;

use vstd::prelude::*;

use crate::error::{is_unrecognized_name, ParseError};
use crate::objects::name_is;

verus! {

/// A procedure set named in a resource dictionary
#[derive(Debug, Clone, Copy, PartialEq, Eq, Structural)]
pub enum ProcedureSet {
    Pdf,
    Text,
    ImageB,
    ImageC,
    ImageI,
}

/// The variant of `ProcedureSet` that the name `s` denotes
pub open spec fn spec_procedure_set(s: Seq<char>) -> Option<ProcedureSet> {
    if s == "PDF"@ {
        Some(ProcedureSet::Pdf)
    } else if s == "Text"@ {
        Some(ProcedureSet::Text)
    } else if s == "ImageB"@ {
        Some(ProcedureSet::ImageB)
    } else if s == "ImageC"@ {
        Some(ProcedureSet::ImageC)
    } else if s == "ImageI"@ {
        Some(ProcedureSet::ImageI)
    } else {
        None
    }
}

impl ProcedureSet {
    /// The variant named `s`; an error for any other name.
    pub fn from_str(s: &str) -> (r: Result<ProcedureSet, ParseError>)
        ensures
            spec_procedure_set(s@) is Some ==> r == Ok::<ProcedureSet, ParseError>(spec_procedure_set(s@)->Some_0),
            spec_procedure_set(s@) is None ==> r is Err && is_unrecognized_name(r->Err_0, "ProcedureSet"@, s@),
    {
        if name_is(s, "PDF") {
            return Ok(ProcedureSet::Pdf);
        }
        if name_is(s, "Text") {
            return Ok(ProcedureSet::Text);
        }
        if name_is(s, "ImageB") {
            return Ok(ProcedureSet::ImageB);
        }
        if name_is(s, "ImageC") {
            return Ok(ProcedureSet::ImageC);
        }
        if name_is(s, "ImageI") {
            return Ok(ProcedureSet::ImageI);
        }
        Err(ParseError::UnrecognizedVariant { ty: "ProcedureSet", name: s.to_owned() })
    }
}

/// The name of each variant of `ProcedureSet`; no other name denotes one.
pub proof fn lemma_procedure_set_names()
    ensures
        spec_procedure_set("PDF"@) == Some(ProcedureSet::Pdf),
        spec_procedure_set("Text"@) == Some(ProcedureSet::Text),
        spec_procedure_set("ImageB"@) == Some(ProcedureSet::ImageB),
        spec_procedure_set("ImageC"@) == Some(ProcedureSet::ImageC),
        spec_procedure_set("ImageI"@) == Some(ProcedureSet::ImageI),
        forall|s: Seq<char>| #[trigger] spec_procedure_set(s) is Some ==> s == "PDF"@ || s == "Text"@ || s == "ImageB"@ || s == "ImageC"@ || s == "ImageI"@,
{
    reveal_strlit("PDF");
    reveal_strlit("Text");
    reveal_strlit("ImageB");
    reveal_strlit("ImageC");
    reveal_strlit("ImageI");
    assert("PDF"@.len() != "Text"@.len());
    assert("PDF"@.len() != "ImageB"@.len());
    assert("PDF"@.len() != "ImageC"@.len());
    assert("PDF"@.len() != "ImageI"@.len());
    assert("Text"@.len() != "ImageB"@.len());
    assert("Text"@.len() != "ImageC"@.len());
    assert("Text"@.len() != "ImageI"@.len());
    assert("ImageB"@[5] != "ImageC"@[5]);
    assert("ImageB"@[5] != "ImageI"@[5]);
    assert("ImageC"@[5] != "ImageI"@[5]);
}

} // verus!
