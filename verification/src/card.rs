//! The card composer: fixed geometry and drawing order for one render.
//!
//! A finished card is the composited background-plus-icon pixel layer
//! together with two text drawing operations, the community label and the
//! title, at fixed cursors, sizes, colors and wrap boxes. Both text boxes
//! lie strictly left of the icon's target region, so painting the glyphs
//! over the finished layer gives the same image as the fixed drawing
//! order background, label, icon, title.

use vstd::prelude::*;
use crate::{CANVAS_WIDTH, CANVAS_HEIGHT, PADDING, ICON_SIZE};
use crate::color::{Rgb, label_color, title_color};
use crate::color::{GRADIENT_START, GRADIENT_END, lemma_gradient_endpoints, lemma_gradient_monotone};
use crate::canvas::{Canvas, IconImage, card_pixel, icon_rect_contains, icon_sample, render_canvas};
use crate::geom::{ICON_BOX_HEIGHT, ICON_CENTER_X, icon_origin_y};
use crate::geom::{scaled_icon_height, lemma_icon_fits_target};
use crate::geom::lemma_icon_covers_target_when_aspect_matches;
use crate::meta::CardError;

verus! {

/// Font size of the community label, in pixel units.
pub const LABEL_SIZE: usize = 60;

/// Font size of the title, in pixel units.
pub const TITLE_SIZE: usize = 96;

/// Vertical cursor of the community label.
pub const LABEL_CURSOR_Y: usize = 50;

/// Vertical cursor of the title.
pub const TITLE_CURSOR_Y: usize = 150;

/// Wrap box width of the community label.
pub const LABEL_BOX_W: usize = CANVAS_WIDTH - ICON_SIZE - 2 * PADDING;

/// Wrap box height of the community label.
pub const LABEL_BOX_H: usize = 60;

/// Wrap box width of the title.
pub const TITLE_BOX_W: usize = CANVAS_WIDTH - ICON_SIZE - 3 * PADDING;

/// Wrap box height of the title.
pub const TITLE_BOX_H: usize = CANVAS_HEIGHT - TITLE_CURSOR_Y - PADDING;

/// Wrap bounds of one text draw, in pixels.
#[derive(Clone, Copy, PartialEq, Eq, Structural, Debug)]
pub struct TextBox {
    /// Wrap width.
    pub w: usize,
    /// Height before the tail is ellipsized.
    pub h: usize,
}

/// One text drawing operation: what to paint, where, and how.
pub struct TextOp {
    /// The text to lay out.
    pub text: String,
    /// The font family.
    pub font: String,
    /// Font size in pixel units.
    pub size: usize,
    /// Horizontal cursor of the layout's top-left corner.
    pub x: usize,
    /// Vertical cursor of the layout's top-left corner.
    pub y: usize,
    /// Text color.
    pub color: Rgb,
    /// Wrap bounds; unconstrained single-line layout when absent.
    pub bounds: Option<TextBox>,
}

/// Builds the community label's drawing operation.
pub fn label_op(font: &String, label: &String) -> (op: TextOp)
    ensures
        op.text@ == label@,
        op.font@ == font@,
        op.size == LABEL_SIZE,
        op.x == PADDING,
        op.y == LABEL_CURSOR_Y,
        op.color == label_color(),
        op.bounds == (Some(TextBox { w: LABEL_BOX_W, h: LABEL_BOX_H })),
{
    TextOp {
        text: label.clone(),
        font: font.clone(),
        size: LABEL_SIZE,
        x: PADDING,
        y: LABEL_CURSOR_Y,
        color: Rgb { r: 255, g: 31, b: 0 },
        bounds: Some(TextBox { w: LABEL_BOX_W, h: LABEL_BOX_H }),
    }
}

/// Builds the title's drawing operation.
pub fn title_op(font: &String, title: &String) -> (op: TextOp)
    ensures
        op.text@ == title@,
        op.font@ == font@,
        op.size == TITLE_SIZE,
        op.x == PADDING,
        op.y == TITLE_CURSOR_Y,
        op.color == title_color(),
        op.bounds == (Some(TextBox { w: TITLE_BOX_W, h: TITLE_BOX_H })),
{
    TextOp {
        text: title.clone(),
        font: font.clone(),
        size: TITLE_SIZE,
        x: PADDING,
        y: TITLE_CURSOR_Y,
        color: Rgb { r: 255, g: 255, b: 255 },
        bounds: Some(TextBox { w: TITLE_BOX_W, h: TITLE_BOX_H }),
    }
}

/// The icon used for one render: the caller's icon when one was supplied,
/// the embedded default otherwise. Exactly one icon is composited.
pub open spec fn effective_icon(icon: Option<IconImage>, fallback: IconImage) -> IconImage {
    match icon {
        Some(i) => i,
        None => fallback,
    }
}

/// A finished card: the composited pixel layer and the two text draws.
pub struct Card {
    /// Background gradient with the icon composited over it.
    pub canvas: Canvas,
    /// The community label draw.
    pub label: TextOp,
    /// The title draw.
    pub title: TextOp,
}

/// Builds an icon from decoded pixel data, as a typed failure when the
/// data does not form a well-formed image.
pub fn decode_icon_pixels(width: usize, height: usize, pixels: Vec<Rgb>) -> (r: Result<
    IconImage,
    CardError,
>)
    ensures
        match r {
            Ok(img) => {
                &&& img.wf()
                &&& img.width == width
                &&& img.height == height
                &&& img.pixels == pixels
            },
            Err(e) => {
                &&& e == CardError::BadIcon
                &&& !(1 <= width <= 0x7fff_ffff && 1 <= height <= 0x7fff_ffff
                    && pixels.len() == width * height)
            },
        },
{
    match IconImage::from_pixels(width, height, pixels) {
        Some(img) => Ok(img),
        None => Err(CardError::BadIcon),
    }
}

/// Composes one card from validated inputs: the background gradient and
/// the chosen icon are composited into the pixel layer, and the label and
/// title draws carry the fixed cursors, sizes, colors and wrap boxes.
pub fn compose_card(
    font: &String,
    title: &String,
    label: &String,
    icon: Option<IconImage>,
    fallback: IconImage,
) -> (card: Card)
    requires
        fallback.wf(),
        icon matches Some(i) ==> i.wf(),
    ensures
        card.canvas.wf(),
        forall|x: int, y: int|
            0 <= x < CANVAS_WIDTH && 0 <= y < CANVAS_HEIGHT
                ==> card.canvas.pixel(x, y) == card_pixel(effective_icon(icon, fallback), x, y),
        card.label.text@ == label@ && card.title.text@ == title@,
        card.label.font@ == font@ && card.title.font@ == font@,
        card.label.size == LABEL_SIZE && card.title.size == TITLE_SIZE,
        card.label.x == PADDING && card.label.y == LABEL_CURSOR_Y,
        card.title.x == PADDING && card.title.y == TITLE_CURSOR_Y,
        card.label.color == label_color() && card.title.color == title_color(),
        card.label.bounds == (Some(TextBox { w: LABEL_BOX_W, h: LABEL_BOX_H })),
        card.title.bounds == (Some(TextBox { w: TITLE_BOX_W, h: TITLE_BOX_H })),
{
    let canvas = match icon {
        Some(i) => render_canvas(&i),
        None => render_canvas(&fallback),
    };
    Card { canvas, label: label_op(font, label), title: title_op(font, title) }
}

/// The composited layer is a function of the chosen icon alone: any two
/// canvases that satisfy the compose contract for the same icon hold
/// identical pixels. With the text draws likewise pinned by the compose
/// contract, two renders of identical inputs produce identical cards.
pub proof fn lemma_compose_deterministic(c1: Canvas, c2: Canvas, img: IconImage)
    requires
        c1.wf(),
        c2.wf(),
        forall|x: int, y: int|
            0 <= x < CANVAS_WIDTH && 0 <= y < CANVAS_HEIGHT
                ==> c1.pixel(x, y) == card_pixel(img, x, y),
        forall|x: int, y: int|
            0 <= x < CANVAS_WIDTH && 0 <= y < CANVAS_HEIGHT
                ==> c2.pixel(x, y) == card_pixel(img, x, y),
    ensures
        c1.pixels@ == c2.pixels@,
{
    assert forall|i: int| 0 <= i < c1.pixels@.len() implies c1.pixels@[i] == c2.pixels@[i] by {
        crate::canvas::lemma_index_decompose(i);
        let x = i % (CANVAS_WIDTH as int);
        let y = i / (CANVAS_WIDTH as int);
        assert(c1.pixel(x, y) == card_pixel(img, x, y));
        assert(c2.pixel(x, y) == card_pixel(img, x, y));
    };
    assert(c1.pixels@ =~= c2.pixels@);
}

/// The icon never reaches the top or bottom padding rows: its rendered
/// rectangle lies between rows `PADDING` and `CANVAS_HEIGHT - PADDING`.
proof fn lemma_icon_rows_padded(iw: int, ih: int)
    requires
        1 <= iw,
        1 <= ih,
    ensures
        PADDING <= icon_origin_y(iw, ih),
        icon_origin_y(iw, ih) + scaled_icon_height(iw, ih) <= CANVAS_HEIGHT - PADDING,
{
    lemma_icon_fits_target(iw, ih);
    let ph = scaled_icon_height(iw, ih);
    assert((1080 - ph) / 2 >= 50) by (nonlinear_arith)
        requires 0 <= ph <= 980;
    assert((1080 - ph) / 2 + ph <= 1030) by (nonlinear_arith)
        requires 0 <= ph <= 980;
}

/// Background gradient on the composited layer: the top row shows the
/// start color, the bottom row shows the end color, and between any two
/// background pixels the gray level never decreases downwards.
pub proof fn lemma_gradient_rows(img: IconImage, c: Canvas)
    requires
        img.wf(),
        c.wf(),
        forall|x: int, y: int|
            0 <= x < CANVAS_WIDTH && 0 <= y < CANVAS_HEIGHT
                ==> c.pixel(x, y) == card_pixel(img, x, y),
    ensures
        forall|x: int| 0 <= x < CANVAS_WIDTH
            ==> c.pixel(x, 0) == (Rgb { r: GRADIENT_START, g: GRADIENT_START, b: GRADIENT_START }),
        forall|x: int, y: int|
            0 <= x < CANVAS_WIDTH && y == CANVAS_HEIGHT - 1
                ==> #[trigger] c.pixel(x, y)
                    == (Rgb { r: GRADIENT_END, g: GRADIENT_END, b: GRADIENT_END }),
        forall|x1: int, y1: int, x2: int, y2: int|
            0 <= x1 < CANVAS_WIDTH && 0 <= x2 < CANVAS_WIDTH
                && 0 <= y1 <= y2 < CANVAS_HEIGHT
                && !icon_rect_contains(img.width as int, img.height as int, x1, y1)
                && !icon_rect_contains(img.width as int, img.height as int, x2, y2)
                ==> (#[trigger] c.pixel(x1, y1)).r <= (#[trigger] c.pixel(x2, y2)).r
                    && c.pixel(x1, y1).g <= c.pixel(x2, y2).g
                    && c.pixel(x1, y1).b <= c.pixel(x2, y2).b,
{
    let iw = img.width as int;
    let ih = img.height as int;
    lemma_icon_rows_padded(iw, ih);
    lemma_gradient_endpoints(CANVAS_HEIGHT as int);
    assert forall|x: int| 0 <= x < CANVAS_WIDTH implies
        c.pixel(x, 0) == (Rgb { r: GRADIENT_START, g: GRADIENT_START, b: GRADIENT_START }) by {
        assert(!icon_rect_contains(iw, ih, x, 0));
        assert(c.pixel(x, 0) == card_pixel(img, x, 0));
    };
    assert forall|x: int, y: int|
        0 <= x < CANVAS_WIDTH && y == CANVAS_HEIGHT - 1 implies #[trigger] c.pixel(x, y)
            == (Rgb { r: GRADIENT_END, g: GRADIENT_END, b: GRADIENT_END }) by {
        assert(!icon_rect_contains(iw, ih, x, y));
        assert(c.pixel(x, y) == card_pixel(img, x, y));
    };
    assert forall|x1: int, y1: int, x2: int, y2: int|
        0 <= x1 < CANVAS_WIDTH && 0 <= x2 < CANVAS_WIDTH
            && 0 <= y1 <= y2 < CANVAS_HEIGHT
            && !icon_rect_contains(img.width as int, img.height as int, x1, y1)
            && !icon_rect_contains(img.width as int, img.height as int, x2, y2)
            implies (#[trigger] c.pixel(x1, y1)).r <= (#[trigger] c.pixel(x2, y2)).r
                && c.pixel(x1, y1).g <= c.pixel(x2, y2).g
                && c.pixel(x1, y1).b <= c.pixel(x2, y2).b by {
        assert(c.pixel(x1, y1) == card_pixel(img, x1, y1));
        assert(c.pixel(x2, y2) == card_pixel(img, x2, y2));
        crate::color::lemma_gradient_level_bounds(y1, CANVAS_HEIGHT as int);
        crate::color::lemma_gradient_level_bounds(y2, CANVAS_HEIGHT as int);
        lemma_gradient_monotone(y1, y2, CANVAS_HEIGHT as int);
    };
}

/// Every pixel of the icon's rendered rectangle on the composited layer
/// is a sample of the icon: the rectangle is filled with no gaps.
pub proof fn lemma_icon_rect_filled(img: IconImage, c: Canvas)
    requires
        img.wf(),
        c.wf(),
        forall|x: int, y: int|
            0 <= x < CANVAS_WIDTH && 0 <= y < CANVAS_HEIGHT
                ==> c.pixel(x, y) == card_pixel(img, x, y),
    ensures
        forall|x: int, y: int|
            icon_rect_contains(img.width as int, img.height as int, x, y)
                ==> #[trigger] c.pixel(x, y) == icon_sample(img, x, y),
{
    let iw = img.width as int;
    let ih = img.height as int;
    crate::geom::lemma_icon_on_canvas(iw, ih);
    assert forall|x: int, y: int|
        icon_rect_contains(iw, ih, x, y) implies #[trigger] c.pixel(x, y)
            == icon_sample(img, x, y) by {
        assert(0 <= x < CANVAS_WIDTH && 0 <= y < CANVAS_HEIGHT);
        assert(c.pixel(x, y) == card_pixel(img, x, y));
    };
}

/// When the icon's aspect ratio equals the target region's, the whole
/// `ICON_SIZE` by `ICON_BOX_HEIGHT` target region shows icon samples:
/// the region is fully covered and neither axis is cropped.
pub proof fn lemma_icon_covers_region_when_aspect_matches(img: IconImage, c: Canvas)
    requires
        img.wf(),
        c.wf(),
        img.width * ICON_BOX_HEIGHT == img.height * ICON_SIZE,
        forall|x: int, y: int|
            0 <= x < CANVAS_WIDTH && 0 <= y < CANVAS_HEIGHT
                ==> c.pixel(x, y) == card_pixel(img, x, y),
    ensures
        forall|x: int, y: int|
            ICON_CENTER_X - ICON_SIZE / 2 <= x < ICON_CENTER_X - ICON_SIZE / 2 + ICON_SIZE
                && PADDING <= y < PADDING + ICON_BOX_HEIGHT
                ==> #[trigger] c.pixel(x, y) == icon_sample(img, x, y),
{
    let iw = img.width as int;
    let ih = img.height as int;
    lemma_icon_covers_target_when_aspect_matches(iw, ih);
    lemma_icon_rect_filled(img, c);
    assert forall|x: int, y: int|
        ICON_CENTER_X - ICON_SIZE / 2 <= x < ICON_CENTER_X - ICON_SIZE / 2 + ICON_SIZE
            && PADDING <= y < PADDING + ICON_BOX_HEIGHT
            implies #[trigger] c.pixel(x, y) == icon_sample(img, x, y) by {
        assert(icon_rect_contains(iw, ih, x, y));
    };
}

/// The default-icon rule: a render with no supplied icon composites the
/// embedded default, so its layer equals a render handed the default
/// explicitly.
pub proof fn lemma_default_icon_fallback(icon: Option<IconImage>, fallback: IconImage)
    ensures
        icon is None ==> effective_icon(icon, fallback) == fallback,
        forall|i: IconImage| icon == Some(i) ==> effective_icon(icon, fallback) == i,
{
}

/// Both text wrap boxes lie strictly left of the icon's target region and
/// inside the canvas, stacked label above title: glyphs confined to their
/// boxes never overlap the icon.
pub proof fn lemma_text_boxes_clear_icon_region()
    ensures
        PADDING + LABEL_BOX_W <= ICON_CENTER_X - ICON_SIZE / 2,
        PADDING + TITLE_BOX_W <= ICON_CENTER_X - ICON_SIZE / 2,
        LABEL_CURSOR_Y + LABEL_BOX_H <= TITLE_CURSOR_Y,
        TITLE_CURSOR_Y + TITLE_BOX_H <= CANVAS_HEIGHT - PADDING,
{
}

} // verus!
