//! Icon geometry: the scale rule and the anchored placement of the icon's
//! rendered rectangle, together with the text bounding boxes.
//!
//! The icon's target region is a square of side `ICON_SIZE`, horizontally
//! anchored so its center sits at `CANVAS_WIDTH - PADDING - ICON_SIZE / 2`
//! and vertically centered in the canvas. The scale factor is
//! `max(iw / ICON_SIZE, ih / (CANVAS_HEIGHT - 2 * PADDING))`, and the icon
//! is drawn at `iw / scale` by `ih / scale` pixels, centered on the target
//! region's center.

use vstd::prelude::*;
use crate::{CANVAS_WIDTH, CANVAS_HEIGHT, PADDING, ICON_SIZE};

verus! {

/// Height of the icon's target region: the canvas height minus the padding
/// at the top and at the bottom.
pub const ICON_BOX_HEIGHT: usize = CANVAS_HEIGHT - 2 * PADDING;

/// Horizontal center of the icon's target region.
pub const ICON_CENTER_X: usize = CANVAS_WIDTH - PADDING - ICON_SIZE / 2;

/// True when the icon is at least as wide, relative to the target region,
/// as it is tall: the scale factor is then `iw / ICON_SIZE`.
pub open spec fn icon_width_bound(iw: int, ih: int) -> bool {
    iw * (ICON_BOX_HEIGHT as int) >= ih * (ICON_SIZE as int)
}

/// Width in pixels of the icon's rendered rectangle.
pub open spec fn scaled_icon_width(iw: int, ih: int) -> int {
    if icon_width_bound(iw, ih) {
        ICON_SIZE as int
    } else {
        iw * (ICON_BOX_HEIGHT as int) / ih
    }
}

/// Height in pixels of the icon's rendered rectangle.
pub open spec fn scaled_icon_height(iw: int, ih: int) -> int {
    if icon_width_bound(iw, ih) {
        ih * (ICON_SIZE as int) / iw
    } else {
        ICON_BOX_HEIGHT as int
    }
}

/// Leftmost canvas column of the icon's rendered rectangle: the rectangle
/// is centered on the target region's horizontal center.
pub open spec fn icon_origin_x(iw: int, ih: int) -> int {
    ICON_CENTER_X as int - scaled_icon_width(iw, ih) / 2
}

/// Topmost canvas row of the icon's rendered rectangle: the rectangle is
/// vertically centered in the canvas.
pub open spec fn icon_origin_y(iw: int, ih: int) -> int {
    (CANVAS_HEIGHT as int - scaled_icon_height(iw, ih)) / 2
}

/// The icon's rendered rectangle, in canvas pixel coordinates.
#[derive(Clone, Copy, PartialEq, Eq, Structural, Debug)]
pub struct IconPlacement {
    /// Leftmost column.
    pub x: usize,
    /// Topmost row.
    pub y: usize,
    /// Width in pixels.
    pub w: usize,
    /// Height in pixels.
    pub h: usize,
}

/// The rendered rectangle never exceeds the target region in either axis.
pub proof fn lemma_icon_fits_target(iw: int, ih: int)
    requires
        1 <= iw,
        1 <= ih,
    ensures
        scaled_icon_width(iw, ih) <= ICON_SIZE,
        scaled_icon_height(iw, ih) <= ICON_BOX_HEIGHT,
        0 <= scaled_icon_width(iw, ih),
        0 <= scaled_icon_height(iw, ih),
{
    if icon_width_bound(iw, ih) {
        assert(ih * (ICON_SIZE as int) / iw <= ICON_BOX_HEIGHT as int) by (nonlinear_arith)
            requires 1 <= iw && ih * (ICON_SIZE as int) <= iw * (ICON_BOX_HEIGHT as int);
        assert(0 <= ih * (ICON_SIZE as int) / iw) by (nonlinear_arith)
            requires 1 <= iw && 1 <= ih;
    } else {
        assert(iw * (ICON_BOX_HEIGHT as int) / ih <= ICON_SIZE as int) by (nonlinear_arith)
            requires 1 <= ih && iw * (ICON_BOX_HEIGHT as int) <= ih * (ICON_SIZE as int);
        assert(0 <= iw * (ICON_BOX_HEIGHT as int) / ih) by (nonlinear_arith)
            requires 1 <= ih && 1 <= iw;
    }
}

/// At least one axis of the rendered rectangle spans its full target
/// extent: the width equals `ICON_SIZE`, or the height equals
/// `ICON_BOX_HEIGHT`.
pub proof fn lemma_icon_fills_one_axis(iw: int, ih: int)
    requires
        1 <= iw,
        1 <= ih,
    ensures
        scaled_icon_width(iw, ih) == ICON_SIZE || scaled_icon_height(iw, ih) == ICON_BOX_HEIGHT,
{
}

/// When the icon's aspect ratio equals the target region's, the rendered
/// rectangle is exactly the target region: it covers the whole region and
/// neither axis is cropped or left short.
pub proof fn lemma_icon_covers_target_when_aspect_matches(iw: int, ih: int)
    requires
        1 <= iw,
        1 <= ih,
        iw * ICON_BOX_HEIGHT == ih * ICON_SIZE,
    ensures
        scaled_icon_width(iw, ih) == ICON_SIZE,
        scaled_icon_height(iw, ih) == ICON_BOX_HEIGHT,
        icon_origin_x(iw, ih) == ICON_CENTER_X - ICON_SIZE / 2,
        icon_origin_y(iw, ih) == PADDING,
{
    assert(ih * (ICON_SIZE as int) == iw * (ICON_BOX_HEIGHT as int));
    assert(ih * (ICON_SIZE as int) / iw == ICON_BOX_HEIGHT as int) by (nonlinear_arith)
        requires 1 <= iw && ih * (ICON_SIZE as int) == iw * (ICON_BOX_HEIGHT as int);
}

/// The rendered rectangle lies entirely on the canvas.
pub proof fn lemma_icon_on_canvas(iw: int, ih: int)
    requires
        1 <= iw,
        1 <= ih,
    ensures
        0 <= icon_origin_x(iw, ih),
        icon_origin_x(iw, ih) + scaled_icon_width(iw, ih) <= CANVAS_WIDTH,
        0 <= icon_origin_y(iw, ih),
        icon_origin_y(iw, ih) + scaled_icon_height(iw, ih) <= CANVAS_HEIGHT,
{
    lemma_icon_fits_target(iw, ih);
}

/// Computes the icon's rendered rectangle from the icon's pixel dimensions.
/// The bound on the dimensions is the raster format's own limit.
pub fn icon_placement(iw: usize, ih: usize) -> (p: IconPlacement)
    requires
        1 <= iw <= 0x7fff_ffff,
        1 <= ih <= 0x7fff_ffff,
    ensures
        p.w == scaled_icon_width(iw as int, ih as int),
        p.h == scaled_icon_height(iw as int, ih as int),
        p.x == icon_origin_x(iw as int, ih as int),
        p.y == icon_origin_y(iw as int, ih as int),
        p.w <= ICON_SIZE,
        p.h <= ICON_BOX_HEIGHT,
        p.x + p.w <= CANVAS_WIDTH,
        p.y + p.h <= CANVAS_HEIGHT,
{
    proof {
        assert(ICON_BOX_HEIGHT == 980);
        assert(ICON_SIZE == 800);
        lemma_icon_fits_target(iw as int, ih as int);
        lemma_icon_on_canvas(iw as int, ih as int);
    }
    let wide: bool = (iw as u64) * (ICON_BOX_HEIGHT as u64) >= (ih as u64) * (ICON_SIZE as u64);
    let w: usize;
    let h: usize;
    if wide {
        w = ICON_SIZE;
        h = ((ih as u64) * (ICON_SIZE as u64) / (iw as u64)) as usize;
    } else {
        w = ((iw as u64) * (ICON_BOX_HEIGHT as u64) / (ih as u64)) as usize;
        h = ICON_BOX_HEIGHT;
    }
    let x: usize = ICON_CENTER_X - w / 2;
    let y: usize = (CANVAS_HEIGHT - h) / 2;
    IconPlacement { x, y, w, h }
}

} // verus!
