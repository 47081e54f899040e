//! The canvas, the sprite's bounding box, and the two coordinate systems.
//!
//! Logical space has its origin at the bottom-left corner of the canvas and
//! `y` grows upward. Screen space has its origin at the top-left corner and
//! `y` grows downward. A sprite's position is the centre of its bounding box.

use vstd::prelude::*;

verus! {

/// Width of the canvas, in pixels.
pub const CANVAS_WIDTH: i32 = 800;

/// Height of the canvas, in pixels.
pub const CANVAS_HEIGHT: i32 = 600;

/// Width of the sprite's bounding box, in pixels.
pub const FERRIS_WIDTH: i32 = 80;

/// Height of the sprite's bounding box, in pixels.
pub const FERRIS_HEIGHT: i32 = 50;

/// Whether the bounding box centred at `(x, y)` lies strictly inside the
/// canvas on all four edges.
pub open spec fn in_canvas(x: int, y: int) -> bool {
    &&& x - FERRIS_WIDTH / 2 > 0
    &&& x + FERRIS_WIDTH / 2 < CANVAS_WIDTH
    &&& y - FERRIS_HEIGHT / 2 > 0
    &&& y + FERRIS_HEIGHT / 2 < CANVAS_HEIGHT
}

/// Distance from the left edge of the canvas to the left edge of a sprite
/// centred at logical `x`.
pub open spec fn screen_left(x: int) -> int {
    x - FERRIS_WIDTH / 2
}

/// Distance from the top edge of the canvas to the top edge of a sprite
/// centred at logical `y`.
pub open spec fn screen_top(y: int) -> int {
    CANVAS_HEIGHT - y - FERRIS_HEIGHT / 2
}

/// The logical height of a point given by its distance from the top edge of
/// the canvas.
pub open spec fn flip(offset_y: int) -> int {
    CANVAS_HEIGHT - offset_y
}

/// A sprite inside the canvas is drawn inside the canvas: both screen offsets
/// are positive and leave room for the whole bounding box.
pub proof fn lemma_screen_offsets_in_canvas(x: int, y: int)
    requires
        in_canvas(x, y),
    ensures
        0 < screen_left(x) < CANVAS_WIDTH - FERRIS_WIDTH,
        0 < screen_top(y) < CANVAS_HEIGHT - FERRIS_HEIGHT,
{
}

} // verus!
