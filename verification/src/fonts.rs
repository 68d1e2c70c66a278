//! Monospaced text metrics. The engine positions single-line text by a
//! fixed per-character advance and a fixed line height; the physical
//! glyph tables live with the display hardware and are not consulted
//! here.

use vstd::prelude::*;
use vstd::string::StringSliceAdditionalSpecFns;

verus! {

/// Advance width of one character cell, in pixels.
pub const CHAR_WIDTH: usize = 8;

/// Height of one text line, in pixels.
pub const LINE_HEIGHT: usize = 12;

/// Estimated pixel width of a run of `n` characters.
pub open spec fn spec_text_width(n: int) -> int {
    n * CHAR_WIDTH
}

/// Estimated pixel width of a single line of text under the monospaced
/// model: one fixed-width cell per byte of the text, in either font
/// weight.
pub fn compute_width(text: &str, _bold: bool) -> (w: usize)
    requires
        text.spec_bytes().len() * CHAR_WIDTH <= usize::MAX,
    ensures
        w == spec_text_width(text.spec_bytes().len() as int),
{
    text.len() * CHAR_WIDTH
}

} // verus!
