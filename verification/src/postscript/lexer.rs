//! The byte buffer that the PostScript tokenizer reads from, with its cursor.

use std::borrow::Cow;

use vstd::prelude::*;

use crate::lex::{skip_ws, skip_whitespace};

use super::object::{Container, PostScriptString, StringIndex};

verus! {

/// A cursor over a PostScript program. The strings that the program defines
/// are interned here and referred to by index.
#[derive(Debug)]
pub struct PostScriptLexer<'a> {
    cursor: usize,
    buffer: Cow<'a, [u8]>,
    pub(crate) strings: Container<StringIndex, PostScriptString>,
}

impl<'a> PostScriptLexer<'a> {
    /// The bytes being read
    pub closed spec fn buffer_view(&self) -> Seq<u8> {
        self.buffer@
    }

    /// The position of the next byte to read
    pub closed spec fn cursor_view(&self) -> int {
        self.cursor as int
    }

    /// The interned strings, by index
    pub closed spec fn strings_view(&self) -> Seq<PostScriptString> {
        self.strings.values()
    }

    /// The cursor stays within the buffer, and the interned strings are
    /// indexed from zero.
    pub closed spec fn well_formed(&self) -> bool {
        &&& self.cursor <= self.buffer@.len()
        &&& self.strings.well_formed()
    }

    /// A lexer at the start of `buffer`, with no strings interned.
    pub fn new(buffer: Cow<'a, [u8]>) -> (r: Self)
        ensures
            r.well_formed(),
            r.buffer_view() == buffer@,
            r.cursor_view() == 0,
            r.strings_view() == Seq::<PostScriptString>::empty(),
    {
        Self { buffer, cursor: 0, strings: Container::new() }
    }

    /// Reads from the start of `buffer` from now on. The interned strings
    /// stay.
    pub fn reset_buffer(&mut self, buffer: Cow<'a, [u8]>)
        ensures
            final(self).buffer_view() == buffer@,
            final(self).cursor_view() == 0,
            final(self).strings_view() == old(self).strings_view(),
            old(self).well_formed() ==> final(self).well_formed(),
    {
        self.cursor = 0;
        self.buffer = buffer;
    }

    /// The bytes of the buffer
    fn bytes(&self) -> (r: &[u8])
        ensures
            r@ == self.buffer_view(),
    {
        match &self.buffer {
            Cow::Borrowed(b) => b,
            Cow::Owned(v) => v.as_slice(),
        }
    }

    /// Moves the cursor past whitespace and returns the rest of the buffer.
    pub fn buffer_from_cursor(&mut self) -> (r: &[u8])
        requires
            old(self).well_formed(),
        ensures
            final(self).well_formed(),
            final(self).cursor_view() == skip_ws(old(self).buffer_view(), old(self).cursor_view()),
            final(self).buffer_view() == old(self).buffer_view(),
            final(self).strings_view() == old(self).strings_view(),
            r@ == old(self).buffer_view().subrange(final(self).cursor_view(), old(self).buffer_view().len() as int),
    {
        let cursor = skip_whitespace(self.bytes(), self.cursor);
        self.cursor = cursor;
        let bytes = self.bytes();
        let (_, rest) = bytes.split_at(cursor);
        rest
    }

    /// The next `length` bytes from the cursor, with `true`; when fewer than
    /// `length + 1` bytes are left, the rest of the buffer, with `false`. The
    /// cursor does not move.
    pub fn get_range_from_cursor(&mut self, length: usize) -> (r: (&[u8], bool))
        requires
            old(self).well_formed(),
        ensures
            *final(self) == *old(self),
            old(self).cursor_view() + length >= old(self).buffer_view().len() ==> r.1 == false
                && r.0@ == old(self).buffer_view().subrange(
                old(self).cursor_view(),
                old(self).buffer_view().len() as int,
            ),
            old(self).cursor_view() + length < old(self).buffer_view().len() ==> r.1 == true
                && r.0@ == old(self).buffer_view().subrange(
                old(self).cursor_view(),
                old(self).cursor_view() + length,
            ),
    {
        let bytes = self.bytes();
        let cursor = self.cursor;
        let (_, rest) = bytes.split_at(cursor);
        if length >= rest.len() {
            (rest, false)
        } else {
            let (range, _) = rest.split_at(length);
            (range, true)
        }
    }
}

} // verus!
