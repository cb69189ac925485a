//! Colors of the text mode palette and the attribute byte built from them.

use vstd::prelude::*;

verus! {

/// The sixteen colors of the text mode palette, in palette order: the
/// position of a variant is its hardware index, `Black` being 0 and `White` 15.
#[allow(dead_code)]
#[derive(Debug, Clone, Copy, PartialEq, Eq, Structural)]
pub enum Color {
    Black,
    Blue,
    Green,
    Cyan,
    Red,
    Magenta,
    Brown,
    LightGray,
    DarkGray,
    LightBlue,
    LightGreen,
    LightCyan,
    LightRed,
    Pink,
    Yellow,
    White,
}

impl Color {
    /// The palette index of a color, between 0 and 15.
    pub open spec fn index(self) -> u8 {
        self as u8
    }

    /// Every palette index fits in four bits.
    pub proof fn lemma_index_bound(self)
        ensures
            self.index() < 16,
    {
    }
}

/// The attribute byte of a cell: the foreground index in the low four bits
/// (three color bits and the brightness bit), the background index in the
/// high four (three color bits and the blink bit).
#[derive(Debug, Clone, Copy, PartialEq, Eq, Structural)]
pub struct ColorCode(pub u8);

impl ColorCode {
    /// Packs a foreground and a background color into one attribute byte.
    pub fn new(foreground: Color, background: Color) -> (code: ColorCode)
        ensures
            code.0 == (background.index() << 4) | foreground.index(),
            code.0 == 16 * background.index() + foreground.index(),
    {
        let fg: u8 = foreground as u8;
        let bg: u8 = background as u8;
        proof {
            foreground.lemma_index_bound();
            background.lemma_index_bound();
            assert((bg << 4) | fg == 16 * bg + fg) by (bit_vector)
                requires
                    fg < 16,
                    bg < 16,
            ;
        }
        ColorCode(bg << 4 | fg)
    }

    /// The low four bits of an attribute byte hold the foreground index, the
    /// high four the background index: packing loses nothing.
    pub proof fn lemma_nibbles(foreground: Color, background: Color)
        ensures
            ((background.index() << 4) | foreground.index()) & 0x0f == foreground.index(),
            ((background.index() << 4) | foreground.index()) >> 4 == background.index(),
    {
        let fg = foreground.index();
        let bg = background.index();
        foreground.lemma_index_bound();
        background.lemma_index_bound();
        assert(((bg << 4) | fg) & 0x0f == fg && ((bg << 4) | fg) >> 4 == bg) by (bit_vector)
            requires
                fg < 16,
                bg < 16,
        ;
    }
}

} // verus!
