//! Game widget data.
//!
//! [`Game`] wraps a read-only framebuffer snapshot for a renderer, and
//! the two helpers map 2×2 and 2×4 pixel blocks to the characters that
//! draw them in a terminal. The drawing itself belongs to the driver.

use vstd::prelude::*;

verus! {

/// A read-only view of the framebuffer rows for rendering.
pub struct Game<'vram> {
    vram: &'vram [u64],
}

impl<'vram> Game<'vram> {
    /// The framebuffer rows under the widget.
    pub closed spec fn rows(&self) -> Seq<u64> {
        self.vram@
    }

    /// Creates a [Game] over a framebuffer snapshot.
    pub fn new(vram: &'vram [u64]) -> (r: Self)
        ensures
            r.rows() == vram@,
    {
        Self { vram }
    }

    /// Gets the vram width in pixels: the bits of one row word.
    pub fn vram_width(&self) -> (r: usize)
        ensures
            r == 64,
    {
        64
    }

    /// Gets the vram height in pixels: the number of row words.
    pub fn vram_height(&self) -> (r: usize)
        ensures
            r == self.rows().len(),
    {
        self.vram.len()
    }
}

/// The quarter-block character for a 2×2 pixel block, or `None` for the
/// full block drawn another way.
pub open spec fn spec_quarter_for_bits(bits: u8) -> Option<char> {
    match bits {
        0b0000u8 => Some(' '),
        0b0001u8 => Some('▗'),
        0b0010u8 => Some('▖'),
        0b0011u8 => Some('▄'),
        0b0100u8 => Some('▝'),
        0b0101u8 => Some('▐'),
        0b0110u8 => Some('▞'),
        0b0111u8 => Some('▟'),
        0b1000u8 => Some('▘'),
        0b1001u8 => Some('▚'),
        0b1010u8 => Some('▌'),
        0b1011u8 => Some('▙'),
        0b1100u8 => Some('▀'),
        0b1101u8 => Some('▜'),
        0b1110u8 => Some('▛'),
        0b1111u8 => Some('█'),
        _ => None,
    }
}

/// The character that draws a 2×2 pixel block, its four low bits naming
/// the top-left, top-right, bottom-left and bottom-right pixels from the
/// highest bit down; values above 15 have no character.
pub fn get_quarter_for_bits(bits: u8) -> (r: Option<char>)
    ensures
        r == spec_quarter_for_bits(bits),
{
    match bits {
        0b0000 => Some(' '),
        0b0001 => Some('▗'),
        0b0010 => Some('▖'),
        0b0011 => Some('▄'),
        0b0100 => Some('▝'),
        0b0101 => Some('▐'),
        0b0110 => Some('▞'),
        0b0111 => Some('▟'),
        0b1000 => Some('▘'),
        0b1001 => Some('▚'),
        0b1010 => Some('▌'),
        0b1011 => Some('▙'),
        0b1100 => Some('▀'),
        0b1101 => Some('▜'),
        0b1110 => Some('▛'),
        0b1111 => Some('█'),
        _ => None,
    }
}

/// Relies on char::from_u32: a code point converts exactly when it is not
/// a surrogate and not beyond the last code point.
pub assume_specification[ char::from_u32 ](v: u32) -> (r: Option<char>)
    ensures
        match r {
            Some(c) => (v < 0xd800 || (0xe000 <= v && v <= 0x10ffff)) && c as u32 == v,
            None => !(v < 0xd800 || (0xe000 <= v && v <= 0x10ffff)),
        },
;

/// The character that draws a 2×4 pixel block: a space when no pixel is
/// set, else the braille character whose eight dots are the block's
/// bits.
pub fn get_braille_for_bits(bits: u8) -> (r: Option<char>)
    ensures
        bits == 0 ==> r == Some(' '),
        bits != 0 ==> (r matches Some(c) && c as u32 == 0x2800 + bits),
{
    if bits == 0 {
        Some(' ')
    } else {
        char::from_u32(0x2800u32 + (bits as u32))
    }
}

} // verus!
