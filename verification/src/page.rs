//! Values of page dictionaries.

use vstd::prelude::*;

use crate::error::{is_unrecognized_name, ParseError};
use crate::objects::name_is;

verus! {

/// The order in which annotations of a page are visited with the tab key
#[derive(Debug, Clone, Copy, PartialEq, Eq, Structural)]
pub enum TabOrder {
    Row,
    Column,
    Structure,
}

/// The variant of `TabOrder` that the name `s` denotes
pub open spec fn spec_tab_order(s: Seq<char>) -> Option<TabOrder> {
    if s == "R"@ {
        Some(TabOrder::Row)
    } else if s == "C"@ {
        Some(TabOrder::Column)
    } else if s == "S"@ {
        Some(TabOrder::Structure)
    } else {
        None
    }
}

impl TabOrder {
    /// The variant named `s`; an error for any other name.
    pub fn from_str(s: &str) -> (r: Result<TabOrder, ParseError>)
        ensures
            spec_tab_order(s@) is Some ==> r == Ok::<TabOrder, ParseError>(spec_tab_order(s@)->Some_0),
            spec_tab_order(s@) is None ==> r is Err && is_unrecognized_name(r->Err_0, "TabOrder"@, s@),
    {
        if name_is(s, "R") {
            return Ok(TabOrder::Row);
        }
        if name_is(s, "C") {
            return Ok(TabOrder::Column);
        }
        if name_is(s, "S") {
            return Ok(TabOrder::Structure);
        }
        Err(ParseError::UnrecognizedVariant { ty: "TabOrder", name: s.to_owned() })
    }
}

/// The name of each variant of `TabOrder`; no other name denotes one.
pub proof fn lemma_tab_order_names()
    ensures
        spec_tab_order("R"@) == Some(TabOrder::Row),
        spec_tab_order("C"@) == Some(TabOrder::Column),
        spec_tab_order("S"@) == Some(TabOrder::Structure),
        forall|s: Seq<char>| #[trigger] spec_tab_order(s) is Some ==> s == "R"@ || s == "C"@ || s == "S"@,
{
    reveal_strlit("R");
    reveal_strlit("C");
    reveal_strlit("S");
    assert("R"@[0] != "C"@[0]);
    assert("R"@[0] != "S"@[0]);
    assert("C"@[0] != "S"@[0]);
}

} // verus!
