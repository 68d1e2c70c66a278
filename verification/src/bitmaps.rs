//! Packed monochrome glyphs: a borrowed bitmap with its pixel
//! dimensions and an inversion flag. Blitting a glyph to the screen is
//! the display backend's work; this module only builds and transforms
//! the immutable glyph values.

use vstd::prelude::*;

verus! {

/// One pre-baked monochrome bitmap: the packed pixel data and its
/// dimensions. `inverted` asks the backend to swap foreground and
/// background when blitting.
pub struct Glyph<'a> {
    pub bitmap: &'a [u8],
    pub width: u32,
    pub height: u32,
    pub inverted: bool,
}

impl<'a> Glyph<'a> {
    /// A glyph over the given packed bitmap, drawn in normal video.
    pub fn new(bitmap: &'a [u8], width: u32, height: u32) -> (g: Glyph<'a>)
        ensures
            g.bitmap == bitmap,
            g.width == width,
            g.height == height,
            !g.inverted,
    {
        Glyph { bitmap, width, height, inverted: false }
    }

    /// A glyph from a packed (bitmap, width, height) triple, the shape
    /// image-asset tooling hands out.
    pub fn from_include(packed: (&'a [u8], u32, u32)) -> (g: Glyph<'a>)
        ensures
            g.bitmap == packed.0,
            g.width == packed.1,
            g.height == packed.2,
            !g.inverted,
    {
        Glyph { bitmap: packed.0, width: packed.1, height: packed.2, inverted: false }
    }

    /// The same glyph in reverse video.
    pub fn invert(self) -> (g: Glyph<'a>)
        ensures
            g.bitmap == self.bitmap,
            g.width == self.width,
            g.height == self.height,
            g.inverted,
    {
        Glyph { inverted: true, ..self }
    }

    /// True when the glyph fits on the screen, so that it can be
    /// anchored against the screen edges.
    pub open spec fn fits_screen(self) -> bool {
        self.width as int <= crate::SCREEN_WIDTH as int && self.height as int
            <= crate::SCREEN_HEIGHT as int
    }
}

} // verus!
