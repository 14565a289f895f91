//! The logical structure of a document.

use vstd::prelude::*;

use crate::error::{is_unrecognized_name, ParseError};
use crate::objects::name_is;

verus! {

/// A structure type that the PDF standard defines
#[derive(Debug, Clone, Copy, PartialEq, Eq, Structural)]
pub enum StandardStructureType {
    /// A complete document. This is the root element of any structure tree containing
    /// multiple parts or multiple articles
    Document,
    /// A large-scale division of a document. This type of element is appropriate for
    /// grouping articles or sections.
    Part,
    /// A relatively self-contained body of text constituting a single narrative or
    /// exposition.
    Article,
    /// A container for grouping related content elements
    Section,
    /// A generic block-level element or group of elements
    Division,
    /// A portion of text consisting of one or more paragraphs attributed to someone
    /// other than the author of the surrounding text.
    BlockQuote,
    /// A brief portion of text describing a table or figure
    Caption,
    /// A list made up of table of contents item entries (structure type TOCI) and/or
    /// other nested table of contents entries (TOC)
    TableOfContents,
    /// An individual member of a table of contents.
    TableOfContentsItem,
    /// A sequence of entries containing identifying text accompanied by reference elements
    /// that point out occurrences of the specified text in the main body of a document
    Index,
    /// A grouping element having no inherent structural significance; it serves solely
    /// for grouping purposes.
    NonStructuralElement,
    /// A grouping element containing private content belonging to the application
    /// producing it.
    Private,
}

/// The variant of `StandardStructureType` that the name `s` denotes
pub open spec fn spec_standard_structure_type(s: Seq<char>) -> Option<StandardStructureType> {
    if s == "Document"@ {
        Some(StandardStructureType::Document)
    } else if s == "Part"@ {
        Some(StandardStructureType::Part)
    } else if s == "Art"@ {
        Some(StandardStructureType::Article)
    } else if s == "Sect"@ {
        Some(StandardStructureType::Section)
    } else if s == "Div"@ {
        Some(StandardStructureType::Division)
    } else if s == "BlockQuote"@ {
        Some(StandardStructureType::BlockQuote)
    } else if s == "Caption"@ {
        Some(StandardStructureType::Caption)
    } else if s == "TOC"@ {
        Some(StandardStructureType::TableOfContents)
    } else if s == "TOCI"@ {
        Some(StandardStructureType::TableOfContentsItem)
    } else if s == "Index"@ {
        Some(StandardStructureType::Index)
    } else if s == "NonStruct"@ {
        Some(StandardStructureType::NonStructuralElement)
    } else if s == "Private"@ {
        Some(StandardStructureType::Private)
    } else {
        None
    }
}

impl StandardStructureType {
    /// The variant named `s`; an error for any other name.
    pub fn from_str(s: &str) -> (r: Result<StandardStructureType, ParseError>)
        ensures
            spec_standard_structure_type(s@) is Some ==> r == Ok::<StandardStructureType, ParseError>(spec_standard_structure_type(s@)->Some_0),
            spec_standard_structure_type(s@) is None ==> r is Err && is_unrecognized_name(r->Err_0, "StandardStructureType"@, s@),
    {
        if name_is(s, "Document") {
            return Ok(StandardStructureType::Document);
        }
        if name_is(s, "Part") {
            return Ok(StandardStructureType::Part);
        }
        if name_is(s, "Art") {
            return Ok(StandardStructureType::Article);
        }
        if name_is(s, "Sect") {
            return Ok(StandardStructureType::Section);
        }
        if name_is(s, "Div") {
            return Ok(StandardStructureType::Division);
        }
        if name_is(s, "BlockQuote") {
            return Ok(StandardStructureType::BlockQuote);
        }
        if name_is(s, "Caption") {
            return Ok(StandardStructureType::Caption);
        }
        if name_is(s, "TOC") {
            return Ok(StandardStructureType::TableOfContents);
        }
        if name_is(s, "TOCI") {
            return Ok(StandardStructureType::TableOfContentsItem);
        }
        if name_is(s, "Index") {
            return Ok(StandardStructureType::Index);
        }
        if name_is(s, "NonStruct") {
            return Ok(StandardStructureType::NonStructuralElement);
        }
        if name_is(s, "Private") {
            return Ok(StandardStructureType::Private);
        }
        Err(ParseError::UnrecognizedVariant { ty: "StandardStructureType", name: s.to_owned() })
    }
}

/// The structure type of a structure element: a standard one, or one that
/// the document defines
#[derive(Debug)]
pub enum StructureType {
    Standard(StandardStructureType),
    Other(String),
}

impl StructureType {
    /// The standard structure type named `s`, or `Other` with the name.
    pub fn from_str(s: String) -> (r: StructureType)
        ensures
            spec_standard_structure_type(s@) is Some ==> r == StructureType::Standard(
                spec_standard_structure_type(s@)->Some_0,
            ),
            spec_standard_structure_type(s@) is None ==> (r matches StructureType::Other(o) && o@ == s@),
    {
        match StandardStructureType::from_str(s.as_str()) {
            Ok(standard) => StructureType::Standard(standard),
            Err(_) => StructureType::Other(s),
        }
    }
}

/// The name of each variant of `StandardStructureType`; no other name denotes one.
pub proof fn lemma_standard_structure_type_names()
    ensures
        spec_standard_structure_type("Document"@) == Some(StandardStructureType::Document),
        spec_standard_structure_type("Part"@) == Some(StandardStructureType::Part),
        spec_standard_structure_type("Art"@) == Some(StandardStructureType::Article),
        spec_standard_structure_type("Sect"@) == Some(StandardStructureType::Section),
        spec_standard_structure_type("Div"@) == Some(StandardStructureType::Division),
        spec_standard_structure_type("BlockQuote"@) == Some(StandardStructureType::BlockQuote),
        spec_standard_structure_type("Caption"@) == Some(StandardStructureType::Caption),
        spec_standard_structure_type("TOC"@) == Some(StandardStructureType::TableOfContents),
        spec_standard_structure_type("TOCI"@) == Some(StandardStructureType::TableOfContentsItem),
        spec_standard_structure_type("Index"@) == Some(StandardStructureType::Index),
        spec_standard_structure_type("NonStruct"@) == Some(StandardStructureType::NonStructuralElement),
        spec_standard_structure_type("Private"@) == Some(StandardStructureType::Private),
        forall|s: Seq<char>| #[trigger] spec_standard_structure_type(s) is Some ==> s == "Document"@ || s == "Part"@ || s == "Art"@ || s == "Sect"@ || s == "Div"@ || s == "BlockQuote"@ || s == "Caption"@ || s == "TOC"@ || s == "TOCI"@ || s == "Index"@ || s == "NonStruct"@ || s == "Private"@,
{
    reveal_strlit("Document");
    reveal_strlit("Part");
    reveal_strlit("Art");
    reveal_strlit("Sect");
    reveal_strlit("Div");
    reveal_strlit("BlockQuote");
    reveal_strlit("Caption");
    reveal_strlit("TOC");
    reveal_strlit("TOCI");
    reveal_strlit("Index");
    reveal_strlit("NonStruct");
    reveal_strlit("Private");
    assert("Document"@.len() != "Part"@.len());
    assert("Document"@.len() != "Art"@.len());
    assert("Document"@.len() != "Sect"@.len());
    assert("Document"@.len() != "Div"@.len());
    assert("Document"@.len() != "BlockQuote"@.len());
    assert("Document"@.len() != "Caption"@.len());
    assert("Document"@.len() != "TOC"@.len());
    assert("Document"@.len() != "TOCI"@.len());
    assert("Document"@.len() != "Index"@.len());
    assert("Document"@.len() != "NonStruct"@.len());
    assert("Document"@.len() != "Private"@.len());
    assert("Part"@.len() != "Art"@.len());
    assert("Part"@[0] != "Sect"@[0]);
    assert("Part"@.len() != "Div"@.len());
    assert("Part"@.len() != "BlockQuote"@.len());
    assert("Part"@.len() != "Caption"@.len());
    assert("Part"@.len() != "TOC"@.len());
    assert("Part"@[0] != "TOCI"@[0]);
    assert("Part"@.len() != "Index"@.len());
    assert("Part"@.len() != "NonStruct"@.len());
    assert("Part"@.len() != "Private"@.len());
    assert("Art"@.len() != "Sect"@.len());
    assert("Art"@[0] != "Div"@[0]);
    assert("Art"@.len() != "BlockQuote"@.len());
    assert("Art"@.len() != "Caption"@.len());
    assert("Art"@[0] != "TOC"@[0]);
    assert("Art"@.len() != "TOCI"@.len());
    assert("Art"@.len() != "Index"@.len());
    assert("Art"@.len() != "NonStruct"@.len());
    assert("Art"@.len() != "Private"@.len());
    assert("Sect"@.len() != "Div"@.len());
    assert("Sect"@.len() != "BlockQuote"@.len());
    assert("Sect"@.len() != "Caption"@.len());
    assert("Sect"@.len() != "TOC"@.len());
    assert("Sect"@[0] != "TOCI"@[0]);
    assert("Sect"@.len() != "Index"@.len());
    assert("Sect"@.len() != "NonStruct"@.len());
    assert("Sect"@.len() != "Private"@.len());
    assert("Div"@.len() != "BlockQuote"@.len());
    assert("Div"@.len() != "Caption"@.len());
    assert("Div"@[0] != "TOC"@[0]);
    assert("Div"@.len() != "TOCI"@.len());
    assert("Div"@.len() != "Index"@.len());
    assert("Div"@.len() != "NonStruct"@.len());
    assert("Div"@.len() != "Private"@.len());
    assert("BlockQuote"@.len() != "Caption"@.len());
    assert("BlockQuote"@.len() != "TOC"@.len());
    assert("BlockQuote"@.len() != "TOCI"@.len());
    assert("BlockQuote"@.len() != "Index"@.len());
    assert("BlockQuote"@.len() != "NonStruct"@.len());
    assert("BlockQuote"@.len() != "Private"@.len());
    assert("Caption"@.len() != "TOC"@.len());
    assert("Caption"@.len() != "TOCI"@.len());
    assert("Caption"@.len() != "Index"@.len());
    assert("Caption"@.len() != "NonStruct"@.len());
    assert("Caption"@[0] != "Private"@[0]);
    assert("TOC"@.len() != "TOCI"@.len());
    assert("TOC"@.len() != "Index"@.len());
    assert("TOC"@.len() != "NonStruct"@.len());
    assert("TOC"@.len() != "Private"@.len());
    assert("TOCI"@.len() != "Index"@.len());
    assert("TOCI"@.len() != "NonStruct"@.len());
    assert("TOCI"@.len() != "Private"@.len());
    assert("Index"@.len() != "NonStruct"@.len());
    assert("Index"@.len() != "Private"@.len());
    assert("NonStruct"@.len() != "Private"@.len());
}

} // verus!
