//! The pixel buffer that a page is drawn into.

use vstd::prelude::*;

verus! {

/// The red, green, blue and alpha bytes of a pixel stored as `0x__BBGGRR`:
/// red in the lowest byte, then green, then blue; alpha is always opaque.
pub fn parse_rgba(color: u32) -> (r: [u8; 4])
    ensures
        r@ == seq![(color % 0x100) as u8, ((color / 0x100) % 0x100) as u8, ((color / 0x1_0000) % 0x100) as u8, 0xffu8],
{
    let red = color & 0xff;
    let green = (color >> 8) & 0xff;
    let blue = (color >> 16) & 0xff;
    assert(red == color % 0x100) by (bit_vector)
        requires
            red == color & 0xff,
    ;
    assert(green == (color / 0x100) % 0x100) by (bit_vector)
        requires
            green == (color >> 8) & 0xff,
    ;
    assert(blue == (color / 0x1_0000) % 0x100) by (bit_vector)
        requires
            blue == (color >> 16) & 0xff,
    ;
    let r = [red as u8, green as u8, blue as u8, 0xff];
    assert(r@ =~= seq![(color % 0x100) as u8, ((color / 0x100) % 0x100) as u8, ((color / 0x1_0000) % 0x100) as u8, 0xffu8]);
    r
}

} // verus!
