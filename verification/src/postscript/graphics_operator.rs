use vstd::prelude::*;

verus! {

/// The operators of Type 1 charstrings (Adobe Type 1 Font Format, chapter 6)
#[derive(Debug, Clone, Copy, PartialEq, Eq, Structural)]
pub enum GraphicsOperator {
    // Starting and finishing
    /// `endchar`: finishes a charstring outline definition
    EndChar,
    /// `hsbw`: sets the left sidebearing point at (sbx, 0) and the character
    /// width vector to (wx, 0)
    HorizontalSideBearingWidth,
    /// `seac`: makes an accented character from two other characters
    StandardEncodingAccentedCharacter,
    /// `sbw`: sets the left sidebearing point and the character width vector
    SideBearingWidth,
    // Path construction
    /// `closepath`
    ClosePath,
    /// `hlineto`: equivalent to `dx 0 rlineto`
    HorizontalLineTo,
    /// `hmoveto`: equivalent to `dx 0 rmoveto`
    HorizontalMoveTo,
    /// `hvcurveto`: equivalent to `dx1 0 dx2 dy2 0 dy3 rrcurveto`
    HorizontalVerticalCurveTo,
    /// `rlineto`
    RelativeLineTo,
    /// `rmoveto`
    RelativeMoveTo,
    /// `rrcurveto`
    RelativeRelativeCurveTo,
    /// `vhcurveto`: equivalent to `0 dy1 dx2 dy2 dx3 0 rrcurveto`
    VerticalHorizontalCurveTo,
    /// `vlineto`: equivalent to `0 dy rlineto`
    VerticalLineTo,
    /// `vmoveto`: equivalent to `0 dy rmoveto`
    VerticalMoveTo,
    // Hint commands
    /// `dotsection`
    DotSection,
    /// `hstem`
    HorizontalStem,
    /// `hstem3`
    HorizontalStem3,
    /// `vstem`
    VerticalStem,
    /// `vstem3`
    VerticalStem3,
    // Arithmetic
    /// `div`
    Div,
    // Subroutine
    /// `callothersubr`
    CallOtherSubroutine,
    /// `callsubr`
    CallSubroutine,
    /// `pop`
    Pop,
    /// `return`
    Return,
    /// `setcurrentpoint`
    SetCurrentPoint,
}

} // verus!
