//! Virtual machine sprite definitions.
//!
//! The machine holds a built-in font of sixteen hexadecimal digit glyphs,
//! one per digit `0..=0xF`, five bytes per glyph, stored at the bottom of
//! memory. Each byte is one 8-pixel sprite row with the glyph in its high
//! nibble.

use vstd::prelude::*;

verus! {

/// Number of bytes in one glyph sprite.
pub const SPRITE_LEN: usize = 5;

/// Number of bytes of the whole glyph font.
pub const FONT_LEN: usize = 80;

/// The glyph font: sixteen hexadecimal digit glyphs of five sprite rows
/// each, `0` first and `F` last.
pub open spec fn font() -> Seq<u8> {
    seq![
        0xf0u8, 0x90, 0x90, 0x90, 0xf0, // 0
        0x20, 0x60, 0x20, 0x20, 0x70, // 1
        0xf0, 0x10, 0xf0, 0x80, 0xf0, // 2
        0xf0, 0x10, 0xf0, 0x10, 0xf0, // 3
        0x90, 0x90, 0xf0, 0x10, 0x10, // 4
        0xf0, 0x80, 0xf0, 0x10, 0xf0, // 5
        0xf0, 0x80, 0xf0, 0x90, 0xf0, // 6
        0xf0, 0x10, 0x20, 0x40, 0x40, // 7
        0xf0, 0x90, 0xf0, 0x90, 0xf0, // 8
        0xf0, 0x90, 0xf0, 0x10, 0xf0, // 9
        0xf0, 0x90, 0xf0, 0x90, 0x90, // A
        0xe0, 0x90, 0xe0, 0x90, 0xe0, // B
        0xf0, 0x80, 0x80, 0x80, 0xf0, // C
        0xe0, 0x90, 0x90, 0x90, 0xe0, // D
        0xf0, 0x80, 0xf0, 0x80, 0xf0, // E
        0xf0, 0x80, 0xf0, 0x80, 0x80, // F
    ]
}

/// The font as a vector of its eighty bytes.
pub fn font_bytes() -> (r: Vec<u8>)
    ensures
        r@ == font(),
{
    let r: Vec<u8> = vec![
        0xf0u8, 0x90, 0x90, 0x90, 0xf0, // 0
        0x20, 0x60, 0x20, 0x20, 0x70, // 1
        0xf0, 0x10, 0xf0, 0x80, 0xf0, // 2
        0xf0, 0x10, 0xf0, 0x10, 0xf0, // 3
        0x90, 0x90, 0xf0, 0x10, 0x10, // 4
        0xf0, 0x80, 0xf0, 0x10, 0xf0, // 5
        0xf0, 0x80, 0xf0, 0x90, 0xf0, // 6
        0xf0, 0x10, 0x20, 0x40, 0x40, // 7
        0xf0, 0x90, 0xf0, 0x90, 0xf0, // 8
        0xf0, 0x90, 0xf0, 0x10, 0xf0, // 9
        0xf0, 0x90, 0xf0, 0x90, 0x90, // A
        0xe0, 0x90, 0xe0, 0x90, 0xe0, // B
        0xf0, 0x80, 0x80, 0x80, 0xf0, // C
        0xe0, 0x90, 0x90, 0x90, 0xe0, // D
        0xf0, 0x80, 0xf0, 0x80, 0xf0, // E
        0xf0, 0x80, 0xf0, 0x80, 0x80, // F
    ];
    proof {
        assert(r@ =~= font());
    }
    r
}

/// Copies the glyph font to the bottom of the supplied buffer, leaving the
/// rest of the buffer as it was.
pub fn copy_to(to: &mut Vec<u8>)
    requires
        old(to)@.len() >= FONT_LEN,
    ensures
        final(to)@.len() == old(to)@.len(),
        forall|i: int| 0 <= i < FONT_LEN ==> final(to)@[i] == font()[i],
        forall|i: int| FONT_LEN <= i < old(to)@.len() ==> final(to)@[i] == old(to)@[i],
{
    let glyphs = font_bytes();
    let mut i: usize = 0;
    while i < FONT_LEN
        invariant
            i <= FONT_LEN,
            glyphs@ == font(),
            to@.len() == old(to)@.len(),
            old(to)@.len() >= FONT_LEN,
            forall|j: int| 0 <= j < i ==> to@[j] == font()[j],
            forall|j: int| i <= j < old(to)@.len() ==> to@[j] == old(to)@[j],
        decreases FONT_LEN - i,
    {
        to[i] = glyphs[i];
        i = i + 1;
    }
}

} // verus!
