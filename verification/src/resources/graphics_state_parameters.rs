//! Values of graphics state parameter dictionaries.

use vstd::prelude::*;

use crate::error::{is_unrecognized_integer, is_unrecognized_name, ParseError};
use crate::objects::name_is;

verus! {

/// A blend mode of the transparent imaging model
#[derive(Debug)]
pub enum BlendMode {
    Normal,
    /// Same as Normal. This mode exists only for compatibility and should not be used.
    Compatible,
    Multiply,
    Screen,
    Overlay,
    Darken,
    Lighten,
    ColorDodge,
    ColorBurn,
    HardLight,
    SoftLight,
    Difference,
    Exclusion,
    /// A name that denotes no blend mode known here
    Unknown(String),
    /// The application shall use the first blend mode in the array
    /// that it recognizes (or Normal if it recognizes none of them).
    Array(Vec<BlendMode>),
}

/// The blend mode that the name `s` denotes, if it is a known one
pub open spec fn spec_blend_mode(s: Seq<char>) -> Option<BlendMode> {
    if s == "Normal"@ {
        Some(BlendMode::Normal)
    } else if s == "Compatible"@ {
        Some(BlendMode::Compatible)
    } else if s == "Multiply"@ {
        Some(BlendMode::Multiply)
    } else if s == "Screen"@ {
        Some(BlendMode::Screen)
    } else if s == "Overlay"@ {
        Some(BlendMode::Overlay)
    } else if s == "Darken"@ {
        Some(BlendMode::Darken)
    } else if s == "Lighten"@ {
        Some(BlendMode::Lighten)
    } else if s == "ColorDodge"@ {
        Some(BlendMode::ColorDodge)
    } else if s == "ColorBurn"@ {
        Some(BlendMode::ColorBurn)
    } else if s == "HardLight"@ {
        Some(BlendMode::HardLight)
    } else if s == "SoftLight"@ {
        Some(BlendMode::SoftLight)
    } else if s == "Difference"@ {
        Some(BlendMode::Difference)
    } else if s == "Exclusion"@ {
        Some(BlendMode::Exclusion)
    } else {
        None
    }
}

impl BlendMode {
    /// The blend mode named `s`; `Unknown` with the name for a name that
    /// denotes none.
    pub fn from_str(s: String) -> (r: BlendMode)
        ensures
            spec_blend_mode(s@) is Some ==> r == spec_blend_mode(s@)->Some_0,
            spec_blend_mode(s@) is None ==> (r matches BlendMode::Unknown(u) && u@ == s@),
    {
        if name_is(s.as_str(), "Normal") {
            return BlendMode::Normal;
        }
        if name_is(s.as_str(), "Compatible") {
            return BlendMode::Compatible;
        }
        if name_is(s.as_str(), "Multiply") {
            return BlendMode::Multiply;
        }
        if name_is(s.as_str(), "Screen") {
            return BlendMode::Screen;
        }
        if name_is(s.as_str(), "Overlay") {
            return BlendMode::Overlay;
        }
        if name_is(s.as_str(), "Darken") {
            return BlendMode::Darken;
        }
        if name_is(s.as_str(), "Lighten") {
            return BlendMode::Lighten;
        }
        if name_is(s.as_str(), "ColorDodge") {
            return BlendMode::ColorDodge;
        }
        if name_is(s.as_str(), "ColorBurn") {
            return BlendMode::ColorBurn;
        }
        if name_is(s.as_str(), "HardLight") {
            return BlendMode::HardLight;
        }
        if name_is(s.as_str(), "SoftLight") {
            return BlendMode::SoftLight;
        }
        if name_is(s.as_str(), "Difference") {
            return BlendMode::Difference;
        }
        if name_is(s.as_str(), "Exclusion") {
            return BlendMode::Exclusion;
        }
        BlendMode::Unknown(s)
    }
}

/// A rendering intent: how colours are mapped to the output device
#[derive(Debug, Clone, Copy, PartialEq, Eq, Structural)]
pub enum RenderingIntent {
    AbsoluteColorimetric,
    RelativeColorimetric,
    Saturation,
    Perceptual,
}

/// The variant of `RenderingIntent` that the name `s` denotes
pub open spec fn spec_rendering_intent(s: Seq<char>) -> Option<RenderingIntent> {
    if s == "AbsoluteColorimetric"@ {
        Some(RenderingIntent::AbsoluteColorimetric)
    } else if s == "RelativeColorimetric"@ {
        Some(RenderingIntent::RelativeColorimetric)
    } else if s == "Saturation"@ {
        Some(RenderingIntent::Saturation)
    } else if s == "Perceptual"@ {
        Some(RenderingIntent::Perceptual)
    } else {
        None
    }
}

impl RenderingIntent {
    /// The variant named `s`; an error for any other name.
    pub fn from_str(s: &str) -> (r: Result<RenderingIntent, ParseError>)
        ensures
            spec_rendering_intent(s@) is Some ==> r == Ok::<RenderingIntent, ParseError>(spec_rendering_intent(s@)->Some_0),
            spec_rendering_intent(s@) is None ==> r is Err && is_unrecognized_name(r->Err_0, "RenderingIntent"@, s@),
    {
        if name_is(s, "AbsoluteColorimetric") {
            return Ok(RenderingIntent::AbsoluteColorimetric);
        }
        if name_is(s, "RelativeColorimetric") {
            return Ok(RenderingIntent::RelativeColorimetric);
        }
        if name_is(s, "Saturation") {
            return Ok(RenderingIntent::Saturation);
        }
        if name_is(s, "Perceptual") {
            return Ok(RenderingIntent::Perceptual);
        }
        Err(ParseError::UnrecognizedVariant { ty: "RenderingIntent", name: s.to_owned() })
    }
}

/// The line join style shall specify the shape to be used at the corners of
/// paths that are stroked. Join styles shall be significant only at points
/// where consecutive segments of a path connect at an angle; segments that
/// meet or intersect fortuitously shall receive no special treatment.
#[derive(Debug, Clone, Copy, PartialEq, Eq, Structural)]
pub enum LineJoinStyle {
    /// The outer edges of the strokes for the two segments shall be extended
    /// until they meet at an angle, as in a picture frame. If the segments
    /// meet at too sharp an angle, a bevel join shall be used instead.
    Miter,
    /// An arc of a circle with a diameter equal to the line width shall be
    /// drawn around the point where the two segments meet, connecting the
    /// outer edges of the strokes for the two segments.
    Round,
    /// The two segments shall be finished with butt caps and the resulting
    /// notch beyond the ends of the segments shall be filled with a triangle.
    Bevel,
}

/// The variant of `LineJoinStyle` that the integer `i` denotes
pub open spec fn spec_line_join_style(i: i32) -> Option<LineJoinStyle> {
    if i == 0 {
        Some(LineJoinStyle::Miter)
    } else if i == 1 {
        Some(LineJoinStyle::Round)
    } else if i == 2 {
        Some(LineJoinStyle::Bevel)
    } else {
        None
    }
}

impl LineJoinStyle {
    /// The variant numbered `i`; an error for any other number.
    pub fn from_integer(i: i32) -> (r: Result<LineJoinStyle, ParseError>)
        ensures
            spec_line_join_style(i) is Some ==> r == Ok::<LineJoinStyle, ParseError>(spec_line_join_style(i)->Some_0),
            spec_line_join_style(i) is None ==> r is Err && is_unrecognized_integer(r->Err_0, "LineJoinStyle"@, i),
    {
        match i {
            0 => Ok(LineJoinStyle::Miter),
            1 => Ok(LineJoinStyle::Round),
            2 => Ok(LineJoinStyle::Bevel),
            _ => Err(ParseError::UnrecognizedInteger { ty: "LineJoinStyle", number: i }),
        }
    }
}

/// The line cap style shall specify the shape that shall be used at the
/// ends of open subpaths (and dashes, if any) when they are stroked.
#[derive(Debug, Clone, Copy, PartialEq, Eq, Structural)]
pub enum LineCapStyle {
    /// Butt cap. The stroke shall be squared off at the endpoint of the
    /// path. There shall be no projection beyond the end of the path.
    Butt,
    /// Round cap. A semicircular arc with a diameter equal to the line
    /// width shall be drawn around the endpoint and shall be filled in.
    Round,
    /// Projecting square cap. The stroke shall continue beyond the
    /// endpoint of the path for a distance equal to half the line width
    /// and shall be squared off.
    ProjectingSquare,
}

/// The variant of `LineCapStyle` that the integer `i` denotes
pub open spec fn spec_line_cap_style(i: i32) -> Option<LineCapStyle> {
    if i == 0 {
        Some(LineCapStyle::Butt)
    } else if i == 1 {
        Some(LineCapStyle::Round)
    } else if i == 2 {
        Some(LineCapStyle::ProjectingSquare)
    } else {
        None
    }
}

impl LineCapStyle {
    /// The variant numbered `i`; an error for any other number.
    pub fn from_integer(i: i32) -> (r: Result<LineCapStyle, ParseError>)
        ensures
            spec_line_cap_style(i) is Some ==> r == Ok::<LineCapStyle, ParseError>(spec_line_cap_style(i)->Some_0),
            spec_line_cap_style(i) is None ==> r is Err && is_unrecognized_integer(r->Err_0, "LineCapStyle"@, i),
    {
        match i {
            0 => Ok(LineCapStyle::Butt),
            1 => Ok(LineCapStyle::Round),
            2 => Ok(LineCapStyle::ProjectingSquare),
            _ => Err(ParseError::UnrecognizedInteger { ty: "LineCapStyle", number: i }),
        }
    }
}

/// How a soft mask is derived from its transparency group
#[derive(Debug, Clone, Copy, PartialEq, Eq, Structural)]
pub enum SoftMaskSubtype {
    /// The group's computed alpha shall be used, disregarding its colour
    Alpha,
    /// The group's computed colour shall be converted to a single-component luminosity value
    Luminosity,
}

/// The variant of `SoftMaskSubtype` that the name `s` denotes
pub open spec fn spec_soft_mask_subtype(s: Seq<char>) -> Option<SoftMaskSubtype> {
    if s == "Alpha"@ {
        Some(SoftMaskSubtype::Alpha)
    } else if s == "Luminosity"@ {
        Some(SoftMaskSubtype::Luminosity)
    } else {
        None
    }
}

impl SoftMaskSubtype {
    /// The variant named `s`; an error for any other name.
    pub fn from_str(s: &str) -> (r: Result<SoftMaskSubtype, ParseError>)
        ensures
            spec_soft_mask_subtype(s@) is Some ==> r == Ok::<SoftMaskSubtype, ParseError>(spec_soft_mask_subtype(s@)->Some_0),
            spec_soft_mask_subtype(s@) is None ==> r is Err && is_unrecognized_name(r->Err_0, "SoftMaskSubtype"@, s@),
    {
        if name_is(s, "Alpha") {
            return Ok(SoftMaskSubtype::Alpha);
        }
        if name_is(s, "Luminosity") {
            return Ok(SoftMaskSubtype::Luminosity);
        }
        Err(ParseError::UnrecognizedVariant { ty: "SoftMaskSubtype", name: s.to_owned() })
    }
}

/// The name of each variant of `BlendMode`; no other name denotes one.
pub proof fn lemma_blend_mode_names()
    ensures
        spec_blend_mode("Normal"@) == Some(BlendMode::Normal),
        spec_blend_mode("Compatible"@) == Some(BlendMode::Compatible),
        spec_blend_mode("Multiply"@) == Some(BlendMode::Multiply),
        spec_blend_mode("Screen"@) == Some(BlendMode::Screen),
        spec_blend_mode("Overlay"@) == Some(BlendMode::Overlay),
        spec_blend_mode("Darken"@) == Some(BlendMode::Darken),
        spec_blend_mode("Lighten"@) == Some(BlendMode::Lighten),
        spec_blend_mode("ColorDodge"@) == Some(BlendMode::ColorDodge),
        spec_blend_mode("ColorBurn"@) == Some(BlendMode::ColorBurn),
        spec_blend_mode("HardLight"@) == Some(BlendMode::HardLight),
        spec_blend_mode("SoftLight"@) == Some(BlendMode::SoftLight),
        spec_blend_mode("Difference"@) == Some(BlendMode::Difference),
        spec_blend_mode("Exclusion"@) == Some(BlendMode::Exclusion),
        forall|s: Seq<char>| #[trigger] spec_blend_mode(s) is Some ==> s == "Normal"@ || s == "Compatible"@ || s == "Multiply"@ || s == "Screen"@ || s == "Overlay"@ || s == "Darken"@ || s == "Lighten"@ || s == "ColorDodge"@ || s == "ColorBurn"@ || s == "HardLight"@ || s == "SoftLight"@ || s == "Difference"@ || s == "Exclusion"@,
{
    reveal_strlit("Normal");
    reveal_strlit("Compatible");
    reveal_strlit("Multiply");
    reveal_strlit("Screen");
    reveal_strlit("Overlay");
    reveal_strlit("Darken");
    reveal_strlit("Lighten");
    reveal_strlit("ColorDodge");
    reveal_strlit("ColorBurn");
    reveal_strlit("HardLight");
    reveal_strlit("SoftLight");
    reveal_strlit("Difference");
    reveal_strlit("Exclusion");
    assert("Normal"@.len() != "Compatible"@.len());
    assert("Normal"@.len() != "Multiply"@.len());
    assert("Normal"@[0] != "Screen"@[0]);
    assert("Normal"@.len() != "Overlay"@.len());
    assert("Normal"@[0] != "Darken"@[0]);
    assert("Normal"@.len() != "Lighten"@.len());
    assert("Normal"@.len() != "ColorDodge"@.len());
    assert("Normal"@.len() != "ColorBurn"@.len());
    assert("Normal"@.len() != "HardLight"@.len());
    assert("Normal"@.len() != "SoftLight"@.len());
    assert("Normal"@.len() != "Difference"@.len());
    assert("Normal"@.len() != "Exclusion"@.len());
    assert("Compatible"@.len() != "Multiply"@.len());
    assert("Compatible"@.len() != "Screen"@.len());
    assert("Compatible"@.len() != "Overlay"@.len());
    assert("Compatible"@.len() != "Darken"@.len());
    assert("Compatible"@.len() != "Lighten"@.len());
    assert("Compatible"@[2] != "ColorDodge"@[2]);
    assert("Compatible"@.len() != "ColorBurn"@.len());
    assert("Compatible"@.len() != "HardLight"@.len());
    assert("Compatible"@.len() != "SoftLight"@.len());
    assert("Compatible"@[0] != "Difference"@[0]);
    assert("Compatible"@.len() != "Exclusion"@.len());
    assert("Multiply"@.len() != "Screen"@.len());
    assert("Multiply"@.len() != "Overlay"@.len());
    assert("Multiply"@.len() != "Darken"@.len());
    assert("Multiply"@.len() != "Lighten"@.len());
    assert("Multiply"@.len() != "ColorDodge"@.len());
    assert("Multiply"@.len() != "ColorBurn"@.len());
    assert("Multiply"@.len() != "HardLight"@.len());
    assert("Multiply"@.len() != "SoftLight"@.len());
    assert("Multiply"@.len() != "Difference"@.len());
    assert("Multiply"@.len() != "Exclusion"@.len());
    assert("Screen"@.len() != "Overlay"@.len());
    assert("Screen"@[0] != "Darken"@[0]);
    assert("Screen"@.len() != "Lighten"@.len());
    assert("Screen"@.len() != "ColorDodge"@.len());
    assert("Screen"@.len() != "ColorBurn"@.len());
    assert("Screen"@.len() != "HardLight"@.len());
    assert("Screen"@.len() != "SoftLight"@.len());
    assert("Screen"@.len() != "Difference"@.len());
    assert("Screen"@.len() != "Exclusion"@.len());
    assert("Overlay"@.len() != "Darken"@.len());
    assert("Overlay"@[0] != "Lighten"@[0]);
    assert("Overlay"@.len() != "ColorDodge"@.len());
    assert("Overlay"@.len() != "ColorBurn"@.len());
    assert("Overlay"@.len() != "HardLight"@.len());
    assert("Overlay"@.len() != "SoftLight"@.len());
    assert("Overlay"@.len() != "Difference"@.len());
    assert("Overlay"@.len() != "Exclusion"@.len());
    assert("Darken"@.len() != "Lighten"@.len());
    assert("Darken"@.len() != "ColorDodge"@.len());
    assert("Darken"@.len() != "ColorBurn"@.len());
    assert("Darken"@.len() != "HardLight"@.len());
    assert("Darken"@.len() != "SoftLight"@.len());
    assert("Darken"@.len() != "Difference"@.len());
    assert("Darken"@.len() != "Exclusion"@.len());
    assert("Lighten"@.len() != "ColorDodge"@.len());
    assert("Lighten"@.len() != "ColorBurn"@.len());
    assert("Lighten"@.len() != "HardLight"@.len());
    assert("Lighten"@.len() != "SoftLight"@.len());
    assert("Lighten"@.len() != "Difference"@.len());
    assert("Lighten"@.len() != "Exclusion"@.len());
    assert("ColorDodge"@.len() != "ColorBurn"@.len());
    assert("ColorDodge"@.len() != "HardLight"@.len());
    assert("ColorDodge"@.len() != "SoftLight"@.len());
    assert("ColorDodge"@[0] != "Difference"@[0]);
    assert("ColorDodge"@.len() != "Exclusion"@.len());
    assert("ColorBurn"@[0] != "HardLight"@[0]);
    assert("ColorBurn"@[0] != "SoftLight"@[0]);
    assert("ColorBurn"@.len() != "Difference"@.len());
    assert("ColorBurn"@[0] != "Exclusion"@[0]);
    assert("HardLight"@[0] != "SoftLight"@[0]);
    assert("HardLight"@.len() != "Difference"@.len());
    assert("HardLight"@[0] != "Exclusion"@[0]);
    assert("SoftLight"@.len() != "Difference"@.len());
    assert("SoftLight"@[0] != "Exclusion"@[0]);
    assert("Difference"@.len() != "Exclusion"@.len());
}

/// The name of each variant of `RenderingIntent`; no other name denotes one.
pub proof fn lemma_rendering_intent_names()
    ensures
        spec_rendering_intent("AbsoluteColorimetric"@) == Some(RenderingIntent::AbsoluteColorimetric),
        spec_rendering_intent("RelativeColorimetric"@) == Some(RenderingIntent::RelativeColorimetric),
        spec_rendering_intent("Saturation"@) == Some(RenderingIntent::Saturation),
        spec_rendering_intent("Perceptual"@) == Some(RenderingIntent::Perceptual),
        forall|s: Seq<char>| #[trigger] spec_rendering_intent(s) is Some ==> s == "AbsoluteColorimetric"@ || s == "RelativeColorimetric"@ || s == "Saturation"@ || s == "Perceptual"@,
{
    reveal_strlit("AbsoluteColorimetric");
    reveal_strlit("RelativeColorimetric");
    reveal_strlit("Saturation");
    reveal_strlit("Perceptual");
    assert("AbsoluteColorimetric"@[0] != "RelativeColorimetric"@[0]);
    assert("AbsoluteColorimetric"@.len() != "Saturation"@.len());
    assert("AbsoluteColorimetric"@.len() != "Perceptual"@.len());
    assert("RelativeColorimetric"@.len() != "Saturation"@.len());
    assert("RelativeColorimetric"@.len() != "Perceptual"@.len());
    assert("Saturation"@[0] != "Perceptual"@[0]);
}

/// The number of each variant of `LineJoinStyle`; no other number denotes one.
pub proof fn lemma_line_join_style_numbers()
    ensures
        spec_line_join_style(0) == Some(LineJoinStyle::Miter),
        spec_line_join_style(1) == Some(LineJoinStyle::Round),
        spec_line_join_style(2) == Some(LineJoinStyle::Bevel),
        forall|i: i32| #[trigger] spec_line_join_style(i) is Some ==> i == 0 || i == 1 || i == 2,
{

}

/// The number of each variant of `LineCapStyle`; no other number denotes one.
pub proof fn lemma_line_cap_style_numbers()
    ensures
        spec_line_cap_style(0) == Some(LineCapStyle::Butt),
        spec_line_cap_style(1) == Some(LineCapStyle::Round),
        spec_line_cap_style(2) == Some(LineCapStyle::ProjectingSquare),
        forall|i: i32| #[trigger] spec_line_cap_style(i) is Some ==> i == 0 || i == 1 || i == 2,
{

}

/// The name of each variant of `SoftMaskSubtype`; no other name denotes one.
pub proof fn lemma_soft_mask_subtype_names()
    ensures
        spec_soft_mask_subtype("Alpha"@) == Some(SoftMaskSubtype::Alpha),
        spec_soft_mask_subtype("Luminosity"@) == Some(SoftMaskSubtype::Luminosity),
        forall|s: Seq<char>| #[trigger] spec_soft_mask_subtype(s) is Some ==> s == "Alpha"@ || s == "Luminosity"@,
{
    reveal_strlit("Alpha");
    reveal_strlit("Luminosity");
    assert("Alpha"@.len() != "Luminosity"@.len());
}

} // verus!
