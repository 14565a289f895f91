//! Values of Type 1 font dictionaries.

use std::borrow::Cow;

use vstd::prelude::*;

use super::error::PostScriptError;
use super::object::PostScriptString;

verus! {

/// The `FontType` of a font dictionary: 1 or 3
#[derive(Debug, Clone, Copy, PartialEq, Eq, Structural)]
pub enum FontType {
    One,
    Three,
}

impl FontType {
    pub fn from_integer(i: i32) -> (r: Result<FontType, PostScriptError>)
        ensures
            i == 1 ==> r == Ok::<FontType, PostScriptError>(FontType::One),
            i == 3 ==> r == Ok::<FontType, PostScriptError>(FontType::Three),
            i != 1 && i != 3 ==> r == Err::<FontType, PostScriptError>(PostScriptError::RangeCheck),
    {
        match i {
            1 => Ok(FontType::One),
            3 => Ok(FontType::Three),
            _ => Err(PostScriptError::RangeCheck),
        }
    }
}

/// The `PaintType` of a font dictionary: 0 (fill) or 2 (outline)
#[derive(Debug, Clone, Copy, PartialEq, Eq, Structural)]
pub enum PaintType {
    Fill,
    Outline,
}

impl PaintType {
    pub fn from_integer(i: i32) -> (r: Result<PaintType, PostScriptError>)
        ensures
            i == 0 ==> r == Ok::<PaintType, PostScriptError>(PaintType::Fill),
            i == 2 ==> r == Ok::<PaintType, PostScriptError>(PaintType::Outline),
            i != 0 && i != 2 ==> r == Err::<PaintType, PostScriptError>(PostScriptError::RangeCheck),
    {
        match i {
            0 => Ok(PaintType::Fill),
            2 => Ok(PaintType::Outline),
            _ => Err(PostScriptError::RangeCheck),
        }
    }
}

/// The `LanguageGroup` of a font's private dictionary
#[derive(Debug, Clone, Copy, PartialEq, Eq, Structural)]
pub enum LanguageGroup {
    /// Language group 0 consists of languages that use Latin, Greek,
    /// Cyrillic, and similar alphabets
    NonCjk,
    /// Language group 1 consists of Chinese ideographs and similar
    /// character sets, including Japanese Kanji and Korean Hangul
    Cjk,
}

impl LanguageGroup {
    pub fn from_integer(i: i32) -> (r: Result<LanguageGroup, PostScriptError>)
        ensures
            i == 0 ==> r == Ok::<LanguageGroup, PostScriptError>(LanguageGroup::NonCjk),
            i == 1 ==> r == Ok::<LanguageGroup, PostScriptError>(LanguageGroup::Cjk),
            i != 0 && i != 1 ==> r == Err::<LanguageGroup, PostScriptError>(PostScriptError::RangeCheck),
    {
        match i {
            0 => Ok(LanguageGroup::NonCjk),
            1 => Ok(LanguageGroup::Cjk),
            _ => Err(PostScriptError::RangeCheck),
        }
    }
}

/// The glyph name `.notdef`
pub open spec fn notdef_name() -> Seq<u8> {
    seq![46u8, 110u8, 111u8, 116u8, 100u8, 101u8, 102u8]
}

/// The glyph name that `map` assigns to `codepoint`: `.notdef` for codes
/// past its end or without a name.
pub open spec fn spec_glyph_name(map: Seq<Option<Seq<u8>>>, codepoint: u32) -> Seq<u8> {
    if codepoint < map.len() && map[codepoint as int] is Some {
        map[codepoint as int]->Some_0
    } else {
        notdef_name()
    }
}

/// A font's encoding vector: the glyph name of each character code
#[derive(Debug)]
pub struct Encoding {
    codepoint_map: Vec<Option<PostScriptString>>,
}

impl Encoding {
    /// The glyph names, by character code
    pub closed spec fn names(&self) -> Seq<Option<Seq<u8>>> {
        self.codepoint_map@.map_values(|o: Option<PostScriptString>| match o {
            Some(s) => Some(s@),
            None => None,
        })
    }

    pub fn new(codepoint_map: Vec<Option<PostScriptString>>) -> (r: Encoding)
        ensures
            r.names() == codepoint_map@.map_values(|o: Option<PostScriptString>| match o {
                Some(s) => Some(s@),
                None => None,
            }),
    {
        Self { codepoint_map }
    }

    /// The name `.notdef`
    pub fn not_def() -> (r: PostScriptString)
        ensures
            r@ == notdef_name(),
            r.well_formed(),
    {
        let mut v: Vec<u8> = Vec::new();
        v.push(46);
        v.push(110);
        v.push(111);
        v.push(116);
        v.push(100);
        v.push(101);
        v.push(102);
        assert(v@ =~= notdef_name());
        PostScriptString::from_bytes(v)
    }

    /// The glyph name of `codepoint`: `.notdef` for codes the encoding does
    /// not name.
    pub fn get(&self, codepoint: u32) -> (r: Cow<'_, PostScriptString>)
        ensures
            r@ == spec_glyph_name(self.names(), codepoint),
            (r is Borrowed) == (codepoint < self.names().len() && self.names()[codepoint as int] is Some),
    {
        if (codepoint as usize) < self.codepoint_map.len() {
            match &self.codepoint_map[codepoint as usize] {
                Some(s) => {
                    return Cow::Borrowed(s);
                },
                None => {},
            }
        }
        Cow::Owned(Self::not_def())
    }
}

} // verus!
