//! Colors and the vertical background gradient.
//!
//! Channels are 8-bit values on a 0..=255 scale. The background is a
//! two-stop linear gradient from a dark gray at the top edge to a slightly
//! lighter dark gray at the bottom edge, interpolated row by row.

use vstd::prelude::*;

verus! {

/// One 24-bit RGB pixel; the canvas has no alpha channel.
#[derive(Clone, Copy, PartialEq, Eq, Structural, Debug)]
pub struct Rgb {
    pub r: u8,
    pub g: u8,
    pub b: u8,
}

/// Gray level of the gradient's start color (top edge).
pub const GRADIENT_START: u8 = 26;

/// Gray level of the gradient's end color (bottom edge).
pub const GRADIENT_END: u8 = 40;

/// Color of the community label text: a red-orange.
pub open spec fn label_color() -> Rgb {
    Rgb { r: 255, g: 31, b: 0 }
}

/// Color of the title text: white.
pub open spec fn title_color() -> Rgb {
    Rgb { r: 255, g: 255, b: 255 }
}

/// Gray level of the background at row `y` of a canvas `height` rows tall:
/// linear interpolation from `GRADIENT_START` at row 0 to `GRADIENT_END`
/// at row `height - 1`, rounded down.
pub open spec fn gradient_level(y: int, height: int) -> int {
    GRADIENT_START + (GRADIENT_END - GRADIENT_START) * y / (height - 1)
}

/// Background color of row `y`: the gradient gray level on all channels.
pub open spec fn background_color_spec(y: int, height: int) -> Rgb {
    Rgb {
        r: gradient_level(y, height) as u8,
        g: gradient_level(y, height) as u8,
        b: gradient_level(y, height) as u8,
    }
}

/// The gradient level stays within the two stop levels.
pub proof fn lemma_gradient_level_bounds(y: int, height: int)
    requires
        2 <= height,
        0 <= y < height,
    ensures
        GRADIENT_START <= gradient_level(y, height) <= GRADIENT_END,
{
    let span = (GRADIENT_END - GRADIENT_START) as int;
    assert(0 <= span * y) by (nonlinear_arith)
        requires 0 <= span && 0 <= y;
    assert(span * y <= span * (height - 1)) by (nonlinear_arith)
        requires 0 <= span && y <= height - 1;
    assert(0 <= span * y / (height - 1)) by (nonlinear_arith)
        requires 0 <= span * y && 2 <= height;
    assert(span * (height - 1) / (height - 1) == span) by (nonlinear_arith)
        requires 2 <= height;
    assert(span * y / (height - 1) <= span * (height - 1) / (height - 1)) by (nonlinear_arith)
        requires span * y <= span * (height - 1) && 2 <= height;
}

/// The gradient is monotone: lower rows are never darker than higher rows.
pub proof fn lemma_gradient_monotone(y1: int, y2: int, height: int)
    requires
        2 <= height,
        0 <= y1 <= y2 < height,
    ensures
        gradient_level(y1, height) <= gradient_level(y2, height),
{
    let span = (GRADIENT_END - GRADIENT_START) as int;
    assert(span * y1 <= span * y2) by (nonlinear_arith)
        requires 0 <= span && y1 <= y2;
    assert(span * y1 / (height - 1) <= span * y2 / (height - 1)) by (nonlinear_arith)
        requires span * y1 <= span * y2 && 2 <= height;
}

/// The gradient meets its stops: start color at the top row, end color at
/// the bottom row.
pub proof fn lemma_gradient_endpoints(height: int)
    requires
        2 <= height,
    ensures
        gradient_level(0, height) == GRADIENT_START,
        gradient_level(height - 1, height) == GRADIENT_END,
{
    let span = (GRADIENT_END - GRADIENT_START) as int;
    assert(span * 0 / (height - 1) == 0) by (nonlinear_arith)
        requires 2 <= height;
    assert(span * (height - 1) / (height - 1) == span) by (nonlinear_arith)
        requires 2 <= height;
}

/// Computes the background color of row `y` for a canvas `height` rows tall.
pub fn background_color(y: usize, height: usize) -> (c: Rgb)
    requires
        2 <= height <= 0x0fff_ffff,
        y < height,
    ensures
        c == background_color_spec(y as int, height as int),
{
    proof {
        lemma_gradient_level_bounds(y as int, height as int);
    }
    let span: usize = (GRADIENT_END - GRADIENT_START) as usize;
    let level: usize = GRADIENT_START as usize + span * y / (height - 1);
    let gray: u8 = level as u8;
    Rgb { r: gray, g: gray, b: gray }
}

} // verus!
