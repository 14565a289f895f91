//! Optional content: groups of content that a viewer may show or hide.

use vstd::prelude::*;

use crate::error::{is_unrecognized_name, ParseError};
use crate::objects::name_is;

verus! {

/// The optional content of a document
#[derive(Debug, Clone)]
pub struct OptionalContent;

/// An optional content group
#[derive(Debug, Clone)]
pub struct OptionalContentGroup;

/// Which groups of the Order array a viewer displays
#[derive(Debug, Clone, Copy, PartialEq, Eq, Structural)]
pub enum ListMode {
    /// Display all groups in the Order array.
    AllPages,
    /// Display only those groups in the Order array that are referenced by
    /// one or more visible pages.
    VisiblePages,
}

/// The variant of `ListMode` that the name `s` denotes
pub open spec fn spec_list_mode(s: Seq<char>) -> Option<ListMode> {
    if s == "AllPages"@ {
        Some(ListMode::AllPages)
    } else if s == "VisiblePages"@ {
        Some(ListMode::VisiblePages)
    } else {
        None
    }
}

impl ListMode {
    /// The variant named `s`; an error for any other name.
    pub fn from_str(s: &str) -> (r: Result<ListMode, ParseError>)
        ensures
            spec_list_mode(s@) is Some ==> r == Ok::<ListMode, ParseError>(spec_list_mode(s@)->Some_0),
            spec_list_mode(s@) is None ==> r is Err && is_unrecognized_name(r->Err_0, "ListMode"@, s@),
    {
        if name_is(s, "AllPages") {
            return Ok(ListMode::AllPages);
        }
        if name_is(s, "VisiblePages") {
            return Ok(ListMode::VisiblePages);
        }
        Err(ParseError::UnrecognizedVariant { ty: "ListMode", name: s.to_owned() })
    }
}

impl Default for ListMode {
    fn default() -> (r: ListMode)
        ensures
            r == ListMode::AllPages,
    {
        ListMode::AllPages
    }
}

/// The state of all optional content groups before a configuration is applied
#[derive(Debug, Clone, Copy, PartialEq, Eq, Structural)]
pub enum OptionalContentBaseState {
    On,
    Off,
    Unchanged,
}

/// The variant of `OptionalContentBaseState` that the name `s` denotes
pub open spec fn spec_optional_content_base_state(s: Seq<char>) -> Option<OptionalContentBaseState> {
    if s == "ON"@ {
        Some(OptionalContentBaseState::On)
    } else if s == "OFF"@ {
        Some(OptionalContentBaseState::Off)
    } else if s == "Unchanged"@ {
        Some(OptionalContentBaseState::Unchanged)
    } else {
        None
    }
}

impl OptionalContentBaseState {
    /// The variant named `s`; an error for any other name.
    pub fn from_str(s: &str) -> (r: Result<OptionalContentBaseState, ParseError>)
        ensures
            spec_optional_content_base_state(s@) is Some ==> r == Ok::<OptionalContentBaseState, ParseError>(spec_optional_content_base_state(s@)->Some_0),
            spec_optional_content_base_state(s@) is None ==> r is Err && is_unrecognized_name(r->Err_0, "OptionalContentBaseState"@, s@),
    {
        if name_is(s, "ON") {
            return Ok(OptionalContentBaseState::On);
        }
        if name_is(s, "OFF") {
            return Ok(OptionalContentBaseState::Off);
        }
        if name_is(s, "Unchanged") {
            return Ok(OptionalContentBaseState::Unchanged);
        }
        Err(ParseError::UnrecognizedVariant { ty: "OptionalContentBaseState", name: s.to_owned() })
    }
}

impl Default for OptionalContentBaseState {
    fn default() -> (r: OptionalContentBaseState)
        ensures
            r == OptionalContentBaseState::On,
    {
        OptionalContentBaseState::On
    }
}

/// The intended use of optional content
#[derive(Debug, Clone, Copy, PartialEq, Eq, Structural)]
pub enum Intent {
    /// Used for interactive use by document consumers
    View,
    /// Used to represent a document designer's structural organization of artwork
    Design,
    /// Indicates the set of all intents, including those not yet defined
    All,
}

/// The variant of `Intent` that the name `s` denotes
pub open spec fn spec_intent(s: Seq<char>) -> Option<Intent> {
    if s == "View"@ {
        Some(Intent::View)
    } else if s == "Design"@ {
        Some(Intent::Design)
    } else if s == "All"@ {
        Some(Intent::All)
    } else {
        None
    }
}

impl Intent {
    /// The variant named `s`; an error for any other name.
    pub fn from_str(s: &str) -> (r: Result<Intent, ParseError>)
        ensures
            spec_intent(s@) is Some ==> r == Ok::<Intent, ParseError>(spec_intent(s@)->Some_0),
            spec_intent(s@) is None ==> r is Err && is_unrecognized_name(r->Err_0, "Intent"@, s@),
    {
        if name_is(s, "View") {
            return Ok(Intent::View);
        }
        if name_is(s, "Design") {
            return Ok(Intent::Design);
        }
        if name_is(s, "All") {
            return Ok(Intent::All);
        }
        Err(ParseError::UnrecognizedVariant { ty: "Intent", name: s.to_owned() })
    }
}

impl Default for Intent {
    fn default() -> (r: Intent)
        ensures
            r == Intent::View,
    {
        Intent::View
    }
}

/// The name of each variant of `ListMode`; no other name denotes one.
pub proof fn lemma_list_mode_names()
    ensures
        spec_list_mode("AllPages"@) == Some(ListMode::AllPages),
        spec_list_mode("VisiblePages"@) == Some(ListMode::VisiblePages),
        forall|s: Seq<char>| #[trigger] spec_list_mode(s) is Some ==> s == "AllPages"@ || s == "VisiblePages"@,
{
    reveal_strlit("AllPages");
    reveal_strlit("VisiblePages");
    assert("AllPages"@.len() != "VisiblePages"@.len());
}

/// The name of each variant of `OptionalContentBaseState`; no other name denotes one.
pub proof fn lemma_optional_content_base_state_names()
    ensures
        spec_optional_content_base_state("ON"@) == Some(OptionalContentBaseState::On),
        spec_optional_content_base_state("OFF"@) == Some(OptionalContentBaseState::Off),
        spec_optional_content_base_state("Unchanged"@) == Some(OptionalContentBaseState::Unchanged),
        forall|s: Seq<char>| #[trigger] spec_optional_content_base_state(s) is Some ==> s == "ON"@ || s == "OFF"@ || s == "Unchanged"@,
{
    reveal_strlit("ON");
    reveal_strlit("OFF");
    reveal_strlit("Unchanged");
    assert("ON"@.len() != "OFF"@.len());
    assert("ON"@.len() != "Unchanged"@.len());
    assert("OFF"@.len() != "Unchanged"@.len());
}

/// The name of each variant of `Intent`; no other name denotes one.
pub proof fn lemma_intent_names()
    ensures
        spec_intent("View"@) == Some(Intent::View),
        spec_intent("Design"@) == Some(Intent::Design),
        spec_intent("All"@) == Some(Intent::All),
        forall|s: Seq<char>| #[trigger] spec_intent(s) is Some ==> s == "View"@ || s == "Design"@ || s == "All"@,
{
    reveal_strlit("View");
    reveal_strlit("Design");
    reveal_strlit("All");
    assert("View"@.len() != "Design"@.len());
    assert("View"@.len() != "All"@.len());
    assert("Design"@.len() != "All"@.len());
}

} // verus!
