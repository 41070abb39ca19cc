//! Layout and compositing engine for a fixed-size social-media card.
//!
//! The card is a 1920x1080 24-bit RGB canvas holding a vertical background
//! gradient, a community label, a scaled icon anchored to the right edge,
//! and a wrapped title. Geometry and colors are modelled in integers so that
//! every placement and every composited pixel is computed by verified code.
//!
//! - [`color`]: pixel colors and the vertical background gradient.
//! - [`geom`]: the icon's scale rule and anchored placement.
//! - [`canvas`]: the pixel buffer and the composited background-plus-icon layer.
//! - [`text`]: word wrap with character fallback and tail ellipsis.
//! - [`meta`]: typed upstream metadata and field-validated extraction.
//! - [`card`]: the composer, its fixed layout constants, and the card laws.

pub mod color;
pub mod geom;
pub mod canvas;
pub mod text;
pub mod meta;
pub mod card;

use vstd::prelude::*;

verus! {

/// Canvas width in pixels, fixed for every render.
pub const CANVAS_WIDTH: usize = 1920;

/// Canvas height in pixels, fixed for every render.
pub const CANVAS_HEIGHT: usize = 1080;

/// Padding from the canvas edges, in pixels.
pub const PADDING: usize = 50;

/// Side length of the icon's square target region, in pixels.
pub const ICON_SIZE: usize = 800;

} // verus!
