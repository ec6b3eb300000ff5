//! Rectangles in whole pixels and the draw commands made of them.

use vstd::prelude::*;

verus! {

/// A rectangle: its upper left corner and its size, in pixels.
#[derive(Clone, Copy, Debug, PartialEq, Eq, Structural)]
pub struct Rect {
    pub x: i32,
    pub y: i32,
    pub width: u32,
    pub height: u32,
}

/// One sprite draw: copy `src` of the sprite sheet to `dst` of the canvas,
/// mirrored left to right if `flip_horizontal` is set.
#[derive(Clone, Copy, Debug, PartialEq, Eq, Structural)]
pub struct Blit {
    pub src: Rect,
    pub dst: Rect,
    pub flip_horizontal: bool,
}

/// The left edge of the text label on the canvas.
pub const LABEL_X: i32 = 16;

/// The top edge of the text label on the canvas.
pub const LABEL_Y: i32 = 0;

/// Where on the canvas a rendered label of the given size goes.
pub fn label_rect(width: u32, height: u32) -> (r: Rect)
    ensures
        r == (Rect { x: LABEL_X, y: LABEL_Y, width, height }),
{
    Rect { x: LABEL_X, y: LABEL_Y, width, height }
}

} // verus!
