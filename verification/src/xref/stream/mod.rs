//! Cross-reference streams: binary cross-reference sections stored in a stream
//! object, whose entries are rows of fixed-width big-endian fields.

use vstd::prelude::*;

use crate::error::ParseError;

pub mod parser;

verus! {

/// The three fields of a cross-reference stream entry
#[derive(Debug, Clone, Copy, PartialEq, Eq, Structural)]
pub enum XrefStreamField {
    One,
    Two,
    Three,
}

/// The byte widths of the three fields of each cross-reference stream entry,
/// from the stream's `W` array.
///
/// [1 2 1] means that the fields are one byte, two bytes, and one byte,
/// respectively. A value of zero means that the field is absent and takes its
/// default value, if there is one.
#[derive(Debug, Clone, Copy, PartialEq, Eq, Structural)]
pub struct XrefStreamFieldWidths {
    pub field0: u32,
    pub field1: u32,
    pub field2: u32,
}

/// The width of `field` under `w`
pub open spec fn spec_field_width(w: XrefStreamFieldWidths, field: XrefStreamField) -> nat {
    match field {
        XrefStreamField::One => w.field0 as nat,
        XrefStreamField::Two => w.field1 as nat,
        XrefStreamField::Three => w.field2 as nat,
    }
}

impl XrefStreamFieldWidths {
    /// Reads the widths from the three integers of a `W` array.
    pub fn from_arr(arr: &[u32]) -> (r: Result<XrefStreamFieldWidths, ParseError>)
        ensures
            arr@.len() == 3 ==> r == Ok::<XrefStreamFieldWidths, ParseError>(
                XrefStreamFieldWidths { field0: arr@[0], field1: arr@[1], field2: arr@[2] },
            ),
            arr@.len() != 3 ==> r == Err::<XrefStreamFieldWidths, ParseError>(
                ParseError::ArrayOfInvalidLength { expected: 3 },
            ),
    {
        match crate::assert_len(arr, 3) {
            Ok(()) => Ok(XrefStreamFieldWidths { field0: arr[0], field1: arr[1], field2: arr[2] }),
            Err(e) => Err(e),
        }
    }

    /// The number of bytes that `field` takes in each entry
    pub fn field_width(&self, field: XrefStreamField) -> (r: usize)
        ensures
            r == spec_field_width(*self, field),
    {
        match field {
            XrefStreamField::One => self.field0 as usize,
            XrefStreamField::Two => self.field1 as usize,
            XrefStreamField::Three => self.field2 as usize,
        }
    }

    /// The number of bytes in each entry
    pub fn total_width(&self) -> (r: u32)
        requires
            self.field0 + self.field1 + self.field2 <= u32::MAX,
        ensures
            r == self.field0 + self.field1 + self.field2,
    {
        self.field0 + self.field1 + self.field2
    }
}

} // verus!
