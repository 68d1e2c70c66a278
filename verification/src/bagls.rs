//! Drawable primitives: a filled rectangle, a single line of text, and
//! an icon, each an immutable value built by a chain of configuration
//! calls. Painting them is the display backend's work; here live the
//! builders and the pure geometry of where each primitive lands on the
//! screen.

use vstd::prelude::*;
use vstd::string::StringSliceAdditionalSpecFns;
use crate::bitmaps::Glyph;
use crate::fonts::{CHAR_WIDTH, LINE_HEIGHT};
use crate::layout::{spec_get_x, spec_get_y, Layout, Location};
use crate::{SCREEN_HEIGHT, SCREEN_WIDTH};

verus! {

/// Margin kept between the screen edge and edge-anchored chrome such as
/// the arrow icons.
pub const OUTER_PADDING: usize = 2;

/// A filled rectangle: position of its top-left corner and its size.
pub struct RectFull {
    pub pos: (i32, i32),
    pub width: u32,
    pub height: u32,
}

impl RectFull {
    /// A one-pixel rectangle at the origin, to be configured by the
    /// builder calls.
    pub fn new() -> (r: RectFull)
        ensures
            r.pos == (0i32, 0i32),
            r.width == 1,
            r.height == 1,
    {
        RectFull { pos: (0, 0), width: 1, height: 1 }
    }

    /// The same rectangle moved to the given top-left corner.
    pub fn pos(self, x: i32, y: i32) -> (r: RectFull)
        ensures
            r.pos == (x, y),
            r.width == self.width,
            r.height == self.height,
    {
        RectFull { pos: (x, y), ..self }
    }

    /// The same rectangle with the given width.
    pub fn width(self, width: u32) -> (r: RectFull)
        ensures
            r.pos == self.pos,
            r.width == width,
            r.height == self.height,
    {
        RectFull { width, ..self }
    }

    /// The same rectangle with the given height.
    pub fn height(self, height: u32) -> (r: RectFull)
        ensures
            r.pos == self.pos,
            r.width == self.width,
            r.height == height,
    {
        RectFull { height, ..self }
    }
}

/// A single line of borrowed text with its weight and its alignment
/// policies.
pub struct Label<'a> {
    pub text: &'a str,
    pub bold: bool,
    pub loc: Location,
    pub layout: Layout,
}

impl<'a> Label<'a> {
    /// A regular-weight label over the given text, centred in the
    /// middle of the screen.
    pub fn from(s: &'a str) -> (l: Label<'a>)
        ensures
            l.text == s,
            !l.bold,
            l.loc == Location::Middle,
            l.layout == Layout::Centered,
    {
        Label { text: s, bold: false, loc: Location::Middle, layout: Layout::Centered }
    }

    /// The same as `from`: a centred regular-weight label.
    pub fn from_const(s: &'a str) -> (l: Label<'a>)
        ensures
            l.text == s,
            !l.bold,
            l.loc == Location::Middle,
            l.layout == Layout::Centered,
    {
        Label { text: s, bold: false, loc: Location::Middle, layout: Layout::Centered }
    }

    /// The same label moved to another vertical policy.
    pub fn location(self, loc: Location) -> (l: Label<'a>)
        ensures
            l.text == self.text,
            l.bold == self.bold,
            l.loc == loc,
            l.layout == self.layout,
    {
        Label { loc, ..self }
    }

    /// The same label moved to another horizontal policy.
    pub fn layout(self, layout: Layout) -> (l: Label<'a>)
        ensures
            l.text == self.text,
            l.bold == self.bold,
            l.loc == self.loc,
            l.layout == layout,
    {
        Label { layout, ..self }
    }

    /// The same label in bold weight.
    pub fn bold(&self) -> (l: Label<'a>)
        ensures
            l.text == self.text,
            l.bold,
            l.loc == self.loc,
            l.layout == self.layout,
    {
        Label { bold: true, ..*self }
    }

    /// Estimated pixel width of this label's text.
    pub open spec fn spec_width(self) -> int {
        self.text.spec_bytes().len() * CHAR_WIDTH
    }

    /// True when the label's line fits beside the margin its policy
    /// anchors it to, so that a pixel position exists for it.
    pub open spec fn placeable(self) -> bool {
        &&& self.spec_width() <= usize::MAX
        &&& (self.layout is Centered ==> self.spec_width() <= SCREEN_WIDTH)
        &&& (self.layout is Right ==> self.spec_width() + crate::PADDING <= SCREEN_WIDTH)
    }

    /// Pixel position of this label's line: its horizontal policy
    /// resolved against the text's estimated width, its vertical policy
    /// against one line height.
    pub fn place(&self) -> (pos: (usize, usize))
        requires
            self.placeable(),
        ensures
            pos.0 == spec_get_x(self.layout, self.spec_width()),
            pos.1 == spec_get_y(self.loc, LINE_HEIGHT as int),
    {
        let width = crate::fonts::compute_width(self.text, self.bold);
        (self.layout.get_x(width), self.loc.get_y(LINE_HEIGHT))
    }

    /// Bounding box this label paints over — the box to blank when the
    /// label is erased: its position, the text's width, one line
    /// height.
    pub fn erase_bounds(&self) -> (b: (usize, usize, usize, usize))
        requires
            self.placeable(),
        ensures
            b.0 == spec_get_x(self.layout, self.spec_width()),
            b.1 == spec_get_y(self.loc, LINE_HEIGHT as int),
            b.2 == self.spec_width(),
            b.3 == LINE_HEIGHT,
    {
        let width = crate::fonts::compute_width(self.text, self.bold);
        let pos = self.place();
        (pos.0, pos.1, width, LINE_HEIGHT)
    }
}

/// Vertical origin that centres a glyph of the given height on the
/// screen.
pub open spec fn spec_middle_y(height: int) -> int {
    (SCREEN_HEIGHT - height) / 2
}

fn middle_y(glyph: &Glyph) -> (y: i16)
    requires
        glyph.height as int <= SCREEN_HEIGHT as int,
    ensures
        y == spec_middle_y(glyph.height as int),
{
    ((SCREEN_HEIGHT as u32 - glyph.height) / 2) as i16
}

/// A glyph anchored at a pixel position.
pub struct Icon<'a> {
    pub icon: &'a Glyph<'a>,
    pub pos: (i16, i16),
}

impl<'a> Icon<'a> {
    /// An icon over the given glyph, at the left edge, vertically
    /// centred.
    pub fn from(glyph: &'a Glyph<'a>) -> (i: Icon<'a>)
        requires
            glyph.height as int <= SCREEN_HEIGHT as int,
        ensures
            i.icon == glyph,
            i.pos.0 == 0,
            i.pos.1 == spec_middle_y(glyph.height as int),
    {
        let y = middle_y(glyph);
        Icon { icon: glyph, pos: (0, y) }
    }

    /// The same icon at the given column.
    pub fn set_x(self, x: i16) -> (i: Icon<'a>)
        ensures
            i.icon == self.icon,
            i.pos.0 == x,
            i.pos.1 == self.pos.1,
    {
        Icon { pos: (x, self.pos.1), ..self }
    }

    /// The same icon shifted `n` pixels to the right (left for a
    /// negative `n`).
    pub fn shift_h(self, n: i16) -> (i: Icon<'a>)
        requires
            i16::MIN <= self.pos.0 + n <= i16::MAX,
        ensures
            i.icon == self.icon,
            i.pos.0 == self.pos.0 + n,
            i.pos.1 == self.pos.1,
    {
        Icon { pos: (self.pos.0 + n, self.pos.1), ..self }
    }

    /// The same icon shifted `n` pixels down (up for a negative `n`).
    pub fn shift_v(self, n: i16) -> (i: Icon<'a>)
        requires
            i16::MIN <= self.pos.1 + n <= i16::MAX,
        ensures
            i.icon == self.icon,
            i.pos.0 == self.pos.0,
            i.pos.1 == self.pos.1 + n,
    {
        Icon { pos: (self.pos.0, self.pos.1 + n), ..self }
    }
}

/// The up arrow of the screen chrome: at the left margin, vertically
/// centred.
pub fn up_arrow<'a>(glyph: &'a Glyph<'a>) -> (i: Icon<'a>)
    requires
        glyph.height as int <= SCREEN_HEIGHT as int,
    ensures
        i.icon == glyph,
        i.pos.0 == OUTER_PADDING,
        i.pos.1 == spec_middle_y(glyph.height as int),
{
    Icon::from(glyph).set_x(OUTER_PADDING as i16)
}

/// The left arrow of the screen chrome: at the left margin, vertically
/// centred.
pub fn left_arrow<'a>(glyph: &'a Glyph<'a>) -> (i: Icon<'a>)
    requires
        glyph.height as int <= SCREEN_HEIGHT as int,
    ensures
        i.icon == glyph,
        i.pos.0 == OUTER_PADDING,
        i.pos.1 == spec_middle_y(glyph.height as int),
{
    Icon::from(glyph).set_x(OUTER_PADDING as i16)
}

/// The down arrow of the screen chrome: against the right margin,
/// vertically centred.
pub fn down_arrow<'a>(glyph: &'a Glyph<'a>) -> (i: Icon<'a>)
    requires
        glyph.fits_screen(),
        glyph.width as int + OUTER_PADDING as int <= SCREEN_WIDTH as int,
    ensures
        i.icon == glyph,
        i.pos.0 == SCREEN_WIDTH - OUTER_PADDING - glyph.width,
        i.pos.1 == spec_middle_y(glyph.height as int),
{
    let x = (SCREEN_WIDTH - OUTER_PADDING) as i16 - glyph.width as i16;
    Icon::from(glyph).set_x(x)
}

/// The right arrow of the screen chrome: against the right margin,
/// vertically centred.
pub fn right_arrow<'a>(glyph: &'a Glyph<'a>) -> (i: Icon<'a>)
    requires
        glyph.fits_screen(),
        glyph.width as int + OUTER_PADDING as int <= SCREEN_WIDTH as int,
    ensures
        i.icon == glyph,
        i.pos.0 == SCREEN_WIDTH - OUTER_PADDING - glyph.width,
        i.pos.1 == spec_middle_y(glyph.height as int),
{
    let x = (SCREEN_WIDTH - OUTER_PADDING) as i16 - glyph.width as i16;
    Icon::from(glyph).set_x(x)
}

} // verus!
