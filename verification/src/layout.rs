//! Layout engine: pure functions from (alignment policy, content size,
//! screen geometry) to pixel coordinates, and vertical stacking of a
//! short list of lines into one centred bounding box.

use vstd::prelude::*;
use crate::fonts::LINE_HEIGHT;
use crate::{PADDING, SCREEN_HEIGHT, SCREEN_WIDTH};

verus! {

/// Most lines of text that fit on one screen, and so the number of
/// menu entries shown at once.
pub const MAX_LINES: usize = 4;

/// Horizontal alignment policy for one block of content.
#[derive(Clone, Copy, Debug, PartialEq, Eq, Structural)]
pub enum Layout {
    Left,
    Centered,
    Right,
    Custom(usize),
}

/// Vertical alignment policy for one block of content.
#[derive(Clone, Copy, Debug, PartialEq, Eq, Structural)]
pub enum Location {
    Top,
    Middle,
    Bottom,
    Custom(usize),
}

/// Horizontal origin of a block of the given width: left margin,
/// centred slack, right margin, or a caller-chosen column.
pub open spec fn spec_get_x(layout: Layout, width: int) -> int {
    match layout {
        Layout::Left => PADDING as int,
        Layout::Centered => (SCREEN_WIDTH - width) / 2,
        Layout::Right => SCREEN_WIDTH - PADDING - width,
        Layout::Custom(x) => x as int,
    }
}

/// Vertical origin of a block of the given height: top margin, centred
/// slack, bottom margin, or a caller-chosen row.
pub open spec fn spec_get_y(loc: Location, height: int) -> int {
    match loc {
        Location::Top => PADDING as int,
        Location::Middle => (SCREEN_HEIGHT - height) / 2,
        Location::Bottom => SCREEN_HEIGHT - height - PADDING,
        Location::Custom(y) => y as int,
    }
}

impl Layout {
    /// Resolve this horizontal policy against a block of the given
    /// width. The block must fit beside the margin it is anchored to.
    pub fn get_x(&self, width: usize) -> (x: usize)
        requires
            self is Centered ==> width <= SCREEN_WIDTH,
            self is Right ==> width + PADDING <= SCREEN_WIDTH,
        ensures
            x == spec_get_x(*self, width as int),
    {
        match self {
            Layout::Left => PADDING,
            Layout::Centered => (SCREEN_WIDTH - width) / 2,
            Layout::Right => SCREEN_WIDTH - PADDING - width,
            Layout::Custom(x) => *x,
        }
    }
}

impl Location {
    /// Resolve this vertical policy against a block of the given
    /// height. The block must fit beside the margin it is anchored to.
    pub fn get_y(&self, height: usize) -> (y: usize)
        requires
            self is Middle ==> height <= SCREEN_HEIGHT,
            self is Bottom ==> height + PADDING <= SCREEN_HEIGHT,
        ensures
            y == spec_get_y(*self, height as int),
    {
        match self {
            Location::Top => PADDING,
            Location::Middle => (SCREEN_HEIGHT - height) / 2,
            Location::Bottom => SCREEN_HEIGHT - height - PADDING,
            Location::Custom(y) => *y,
        }
    }
}

/// Pixel position of a single line of text of the given width: the
/// horizontal policy resolves against the line's width, the vertical
/// policy against one line height.
pub fn place_line(width: usize, loc: Location, layout: Layout) -> (pos: (usize, usize))
    requires
        layout is Centered ==> width <= SCREEN_WIDTH,
        layout is Right ==> width + PADDING <= SCREEN_WIDTH,
    ensures
        pos.0 == spec_get_x(layout, width as int),
        pos.1 == spec_get_y(loc, LINE_HEIGHT as int),
{
    (layout.get_x(width), loc.get_y(LINE_HEIGHT))
}

/// Height of the bounding box of `n` stacked lines of uniform height
/// with one `gap` between neighbouring lines.
pub open spec fn spec_stack_height(n: int, line_height: int, gap: int) -> int {
    if n == 0 {
        0
    } else {
        n * line_height + (n - 1) * gap
    }
}

/// Vertical origins of `n` stacked lines: the bounding box of the whole
/// stack is resolved once against the vertical policy, and line `i`
/// starts `i` line-plus-gap steps below its top. An empty list yields
/// no positions.
pub fn stacked_ys(n: usize, line_height: usize, gap: usize, loc: Location) -> (ys: Vec<usize>)
    requires
        spec_stack_height(n as int, line_height as int, gap as int) <= SCREEN_HEIGHT,
        loc is Bottom ==> spec_stack_height(n as int, line_height as int, gap as int) + PADDING
            <= SCREEN_HEIGHT,
        loc matches Location::Custom(y0) ==> y0 + spec_stack_height(
            n as int,
            line_height as int,
            gap as int,
        ) <= usize::MAX,
    ensures
        ys@.len() == n,
        forall|i: int|
            0 <= i < n ==> ys@[i] == spec_get_y(
                loc,
                spec_stack_height(n as int, line_height as int, gap as int),
            ) + i * (line_height + gap),
{
    let mut ys: Vec<usize> = Vec::new();
    if n == 0 {
        return ys;
    }
    let ghost lh = line_height as int;
    let ghost g = gap as int;
    let ghost ni = n as int;
    let ghost total_s = spec_stack_height(ni, lh, g);
    proof {
        assert(ni * lh <= total_s && 0 <= ni * lh && (ni - 1) * (lh + g) <= total_s)
            by (nonlinear_arith)
            requires
                ni >= 1,
                lh >= 0,
                g >= 0,
                total_s == ni * lh + (ni - 1) * g,
        ;
    }
    let total: usize = n * line_height + (n - 1) * gap;
    let y0: usize = loc.get_y(total);
    let mut cur: usize = y0;
    let mut i: usize = 0;
    while i < n
        invariant
            1 <= n,
            0 <= i <= n,
            lh == line_height as int,
            g == gap as int,
            ni == n as int,
            ys@.len() == i,
            total_s == spec_stack_height(n as int, line_height as int, gap as int),
            total_s <= SCREEN_HEIGHT,
            (n as int - 1) * (line_height as int + gap as int) <= total_s,
            y0 == spec_get_y(loc, total_s),
            y0 + total_s <= usize::MAX,
            i < n ==> cur == y0 + i * (line_height as int + gap as int),
            forall|j: int|
                0 <= j < i ==> ys@[j] == y0 + j * (line_height as int + gap as int),
        decreases n - i,
    {
        ys.push(cur);
        i = i + 1;
        if i < n {
            proof {
                assert((i as int) * (lh + g) <= (ni - 1) * (lh + g) && (i as int) * (lh + g) == (
                i as int - 1) * (lh + g) + (lh + g) && lh + g <= (ni - 1) * (lh + g))
                    by (nonlinear_arith)
                    requires
                        1 <= i as int <= ni - 1,
                        lh >= 0,
                        g >= 0,
                ;
            }
            cur = cur + (line_height + gap);
        }
    }
    ys
}

/// Law: centring is symmetric. For content of even width no wider than
/// the screen, the centre of a centred block is the centre column of
/// the screen. (Odd widths land one half-pixel left of centre, which
/// integer coordinates round down.)
pub proof fn lemma_centered_symmetric(w: int)
    requires
        0 <= w <= SCREEN_WIDTH,
        w % 2 == 0,
    ensures
        spec_get_x(Layout::Centered, w) + w / 2 == SCREEN_WIDTH / 2,
{
}

/// Law: the three alignment policies order left to right. Whenever the
/// content is narrow enough that the centring slack clears the fixed
/// margins, the left-aligned origin lies strictly left of the centred
/// origin, which lies strictly left of the right-aligned origin.
pub proof fn lemma_alignment_ordered(w: int)
    requires
        0 <= w,
        w + 2 * PADDING + 2 <= SCREEN_WIDTH,
    ensures
        spec_get_x(Layout::Left, w) < spec_get_x(Layout::Centered, w),
        spec_get_x(Layout::Centered, w) < spec_get_x(Layout::Right, w),
{
}

} // verus!
