//! The canvas: a fixed-size pixel buffer, filled by one verified pass that
//! paints the background gradient and composites the icon.
//!
//! `card_pixel` is the specification of every pixel of the finished
//! background-plus-icon layer: inside the icon's rendered rectangle the
//! color is a nearest sample of the decoded icon; everywhere else it is the
//! row's gradient color.

use vstd::prelude::*;
use crate::{CANVAS_WIDTH, CANVAS_HEIGHT};
use crate::color::{Rgb, background_color, background_color_spec};
use crate::geom::{
    icon_origin_x, icon_origin_y, scaled_icon_width, scaled_icon_height, icon_placement,
};

verus! {

/// A decoded raster icon: row-major 24-bit RGB pixels.
#[derive(Debug)]
pub struct IconImage {
    /// Width in pixels.
    pub width: usize,
    /// Height in pixels.
    pub height: usize,
    /// Row-major pixels, `width * height` of them.
    pub pixels: Vec<Rgb>,
}

impl IconImage {
    /// A well-formed icon has positive dimensions within the raster
    /// format's limit and exactly one pixel per cell.
    pub open spec fn wf(self) -> bool {
        &&& 1 <= self.width <= 0x7fff_ffff
        &&& 1 <= self.height <= 0x7fff_ffff
        &&& self.pixels.len() == self.width * self.height
    }

    /// The pixel in column `x` of row `y`.
    pub open spec fn pixel(self, x: int, y: int) -> Rgb {
        self.pixels[y * self.width + x]
    }

    /// Builds an icon from decoded pixel data; rejects dimensions outside
    /// the raster format's limit and buffers of the wrong length.
    pub fn from_pixels(width: usize, height: usize, pixels: Vec<Rgb>) -> (r: Option<IconImage>)
        ensures
            match r {
                Some(img) => {
                    &&& img.wf()
                    &&& img.width == width
                    &&& img.height == height
                    &&& img.pixels == pixels
                },
                None => !(
                    1 <= width <= 0x7fff_ffff
                    && 1 <= height <= 0x7fff_ffff
                    && pixels.len() == width * height
                ),
            },
    {
        if 1 <= width && width <= 0x7fff_ffff && 1 <= height && height <= 0x7fff_ffff {
            proof {
                assert(width * height <= 0x7fff_ffff * 0x7fff_ffff) by (nonlinear_arith)
                    requires width <= 0x7fff_ffff && height <= 0x7fff_ffff;
            }
            if pixels.len() as u64 == width as u64 * height as u64 {
                Some(IconImage { width, height, pixels })
            } else {
                None
            }
        } else {
            None
        }
    }
}

/// True when canvas position `(x, y)` lies inside the rendered rectangle
/// of an icon of dimensions `iw` by `ih`.
pub open spec fn icon_rect_contains(iw: int, ih: int, x: int, y: int) -> bool {
    &&& icon_origin_x(iw, ih) <= x < icon_origin_x(iw, ih) + scaled_icon_width(iw, ih)
    &&& icon_origin_y(iw, ih) <= y < icon_origin_y(iw, ih) + scaled_icon_height(iw, ih)
}

/// Nearest-sample color of the icon at canvas position `(x, y)`, which
/// must lie inside the icon's rendered rectangle.
pub open spec fn icon_sample(img: IconImage, x: int, y: int) -> Rgb {
    let iw = img.width as int;
    let ih = img.height as int;
    let sx = (x - icon_origin_x(iw, ih)) * iw / scaled_icon_width(iw, ih);
    let sy = (y - icon_origin_y(iw, ih)) * ih / scaled_icon_height(iw, ih);
    img.pixel(sx, sy)
}

/// The color of canvas pixel `(x, y)` after the background and the icon
/// are painted: an icon sample inside the icon's rendered rectangle, the
/// row's gradient color everywhere else.
pub open spec fn card_pixel(img: IconImage, x: int, y: int) -> Rgb {
    if icon_rect_contains(img.width as int, img.height as int, x, y) {
        icon_sample(img, x, y)
    } else {
        background_color_spec(y, CANVAS_HEIGHT as int)
    }
}

/// The fixed-size pixel surface that accumulates one render.
pub struct Canvas {
    /// Row-major pixels, `CANVAS_WIDTH * CANVAS_HEIGHT` of them.
    pub pixels: Vec<Rgb>,
}

impl Canvas {
    /// A well-formed canvas has exactly one pixel per canvas cell.
    pub open spec fn wf(self) -> bool {
        self.pixels.len() == CANVAS_WIDTH * CANVAS_HEIGHT
    }

    /// The pixel in column `x` of row `y`.
    pub open spec fn pixel(self, x: int, y: int) -> Rgb {
        self.pixels[y * CANVAS_WIDTH + x]
    }

    /// Reads the pixel in column `x` of row `y`.
    pub fn pixel_at(&self, x: usize, y: usize) -> (c: Rgb)
        requires
            self.wf(),
            x < CANVAS_WIDTH,
            y < CANVAS_HEIGHT,
        ensures
            c == self.pixel(x as int, y as int),
    {
        proof {
            lemma_row_major_index(x as int, y as int);
        }
        self.pixels[y * CANVAS_WIDTH + x]
    }
}

/// Row-major index arithmetic: position `(x, y)` lands at a unique index
/// below the buffer's length, and the index decomposes back into `(x, y)`.
proof fn lemma_row_major_index(x: int, y: int)
    requires
        0 <= x < CANVAS_WIDTH,
        0 <= y < CANVAS_HEIGHT,
    ensures
        0 <= y * CANVAS_WIDTH + x < CANVAS_WIDTH * CANVAS_HEIGHT,
        (y * CANVAS_WIDTH + x) % (CANVAS_WIDTH as int) == x,
        (y * CANVAS_WIDTH + x) / (CANVAS_WIDTH as int) == y,
{
    let w = CANVAS_WIDTH as int;
    assert(0 <= y * w + x < w * (CANVAS_HEIGHT as int)) by (nonlinear_arith)
        requires 0 <= x < w && 0 <= y < CANVAS_HEIGHT as int;
    assert((y * w + x) % w == x && (y * w + x) / w == y) by (nonlinear_arith)
        requires 0 <= x < w && 0 <= y;
}

/// Any buffer index of a well-formed canvas decomposes into a unique
/// column and row.
pub proof fn lemma_index_decompose(i: int)
    requires
        0 <= i < CANVAS_WIDTH * CANVAS_HEIGHT,
    ensures
        0 <= i % (CANVAS_WIDTH as int) < CANVAS_WIDTH,
        0 <= i / (CANVAS_WIDTH as int) < CANVAS_HEIGHT,
        (i / (CANVAS_WIDTH as int)) * (CANVAS_WIDTH as int) + i % (CANVAS_WIDTH as int) == i,
{
    assert(0 <= i % 1920 < 1920 && (i / 1920) * 1920 + i % 1920 == i) by (nonlinear_arith)
        requires 0 <= i;
    assert(0 <= i / 1920 < 1080) by (nonlinear_arith)
        requires 0 <= i < 1920 * 1080;
}

/// Paints the background gradient and composites the icon, producing the
/// finished background-plus-icon layer: every pixel of the result is
/// exactly `card_pixel` of its position.
#[verifier::loop_isolation(false)]
pub fn render_canvas(icon: &IconImage) -> (c: Canvas)
    requires
        icon.wf(),
    ensures
        c.wf(),
        forall|x: int, y: int|
            0 <= x < CANVAS_WIDTH && 0 <= y < CANVAS_HEIGHT
                ==> c.pixel(x, y) == card_pixel(*icon, x, y),
{
    let iw = icon.width;
    let ih = icon.height;
    let p = icon_placement(iw, ih);
    let mut pixels: Vec<Rgb> = Vec::new();
    let mut y: usize = 0;
    while y < CANVAS_HEIGHT
        invariant
            y <= CANVAS_HEIGHT,
            pixels.len() == y * CANVAS_WIDTH,
            forall|xx: int, yy: int|
                0 <= xx < CANVAS_WIDTH && 0 <= yy < y
                    ==> #[trigger] pixels[yy * CANVAS_WIDTH + xx] == card_pixel(*icon, xx, yy),
        decreases CANVAS_HEIGHT - y,
    {
        let bg = background_color(y, CANVAS_HEIGHT);
        let mut x: usize = 0;
        while x < CANVAS_WIDTH
            invariant
                x <= CANVAS_WIDTH,
                pixels.len() == y * CANVAS_WIDTH + x,
                forall|xx: int, yy: int|
                    0 <= xx < CANVAS_WIDTH && 0 <= yy < y
                        ==> #[trigger] pixels[yy * CANVAS_WIDTH + xx] == card_pixel(*icon, xx, yy),
                forall|xx: int|
                    0 <= xx < x
                        ==> #[trigger] pixels[y * CANVAS_WIDTH + xx] == card_pixel(*icon, xx, y as int),
            decreases CANVAS_WIDTH - x,
        {
            proof {
                lemma_row_major_index(x as int, y as int);
            }
            let color: Rgb;
            if p.x <= x && x < p.x + p.w && p.y <= y && y < p.y + p.h {
                proof {
                    lemma_sample_in_range(
                        x as int - p.x as int, p.w as int, iw as int,
                        y as int - p.y as int, p.h as int, ih as int,
                    );
                }
                let sx = ((x - p.x) as u64 * iw as u64 / p.w as u64) as usize;
                let sy = ((y - p.y) as u64 * ih as u64 / p.h as u64) as usize;
                proof {
                    lemma_icon_index(sx as int, sy as int, iw as int, ih as int);
                }
                color = icon.pixels[sy * iw + sx];
            } else {
                color = bg;
            }
            pixels.push(color);
            x = x + 1;
        }
        y = y + 1;
    }
    Canvas { pixels }
}

/// Nearest sampling stays inside the source image: an in-rectangle offset
/// scaled by the source extent over the rendered extent lands strictly
/// below the source extent.
proof fn lemma_sample_in_range(dx: int, pw: int, iw: int, dy: int, ph: int, ih: int)
    requires
        0 <= dx < pw <= 800,
        0 <= dy < ph <= 980,
        1 <= iw <= 0x7fff_ffff,
        1 <= ih <= 0x7fff_ffff,
    ensures
        0 <= dx * iw / pw < iw,
        0 <= dy * ih / ph < ih,
        dx * iw <= 800 * 0x7fff_ffff,
        dy * ih <= 980 * 0x7fff_ffff,
{
    assert(dx * iw <= 800 * 0x7fff_ffff) by (nonlinear_arith)
        requires 0 <= dx < 800 && 0 <= iw <= 0x7fff_ffff;
    assert(dy * ih <= 980 * 0x7fff_ffff) by (nonlinear_arith)
        requires 0 <= dy < 980 && 0 <= ih <= 0x7fff_ffff;
    assert(0 <= dx * iw / pw < iw) by (nonlinear_arith)
        requires 0 <= dx < pw && 1 <= iw;
    assert(0 <= dy * ih / ph < ih) by (nonlinear_arith)
        requires 0 <= dy < ph && 1 <= ih;
}

/// Row-major index arithmetic for the source icon.
proof fn lemma_icon_index(sx: int, sy: int, iw: int, ih: int)
    requires
        0 <= sx < iw,
        0 <= sy < ih,
    ensures
        0 <= sy * iw + sx < iw * ih,
        sy * iw <= (ih - 1) * iw,
    {
    assert(0 <= sy * iw + sx < iw * ih) by (nonlinear_arith)
        requires 0 <= sx < iw && 0 <= sy < ih;
    assert(sy * iw <= (ih - 1) * iw) by (nonlinear_arith)
        requires sy <= ih - 1 && 0 <= iw;
}

} // verus!
