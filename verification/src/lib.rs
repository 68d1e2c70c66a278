//! Interaction engine for a two-button device with a small fixed-size
//! bitmap screen: a button-edge state machine that turns raw 2-bit button
//! readings into discrete press/release events, a layout engine that
//! positions content on the pixel grid, drawable primitives, and the
//! navigation widgets (menus, pagers, scrollers, a yes/no validator)
//! built from them.
//!
//! Everything here is pure computation over plain values: the transport
//! channel and the display hardware are driven by an unverified shell
//! that polls frames, feeds them to these state machines, and executes
//! the draw decisions they return.

use vstd::prelude::*;

pub mod bagls;
pub mod bitmaps;
pub mod buttons;
pub mod fonts;
pub mod layout;
pub mod ui;

verus! {

/// Margin, in pixels, kept between screen edges and edge-anchored content.
pub const PADDING: usize = 2;

/// Width of the screen in pixels.
pub const SCREEN_WIDTH: usize = 128;

/// Height of the screen in pixels.
pub const SCREEN_HEIGHT: usize = 64;

} // verus!
