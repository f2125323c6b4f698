//! Ring geometry: where the ring sits on the drawing surface and how wide it is stroked.
//!
//! Positions and lengths are whole pixels here, or sub-pixel units of `1 / SUBPIXELS`
//! of a pixel where a stroke width is involved.
use vstd::prelude::*;

verus! {

/// Sub-pixel units per pixel (the same scale as Pango's layout units).
pub const SUBPIXELS: i64 = 1024;

/// Rust's `/` on integers: the quotient rounded toward zero.
pub open spec fn trunc_div(a: int, b: int) -> int {
    if a >= 0 {
        a / b
    } else {
        -((-a) / b)
    }
}

/// The smaller of two integers.
pub open spec fn min_int(a: int, b: int) -> int {
    if a <= b {
        a
    } else {
        b
    }
}

/// Centre coordinate of a surface extent, halved as the toolkit hands it over.
pub open spec fn center_of(extent: int) -> int {
    trunc_div(extent, 2)
}

/// The radius of the largest ring that fits around the centre `(center_x, center_y)`:
/// the horizontal half-extent, or the vertical one less a pixel kept for the stroke cap.
pub open spec fn radius_of(center_x: int, center_y: int) -> int {
    min_int(center_x, center_y - 1)
}

/// The stroke width (in sub-pixel units) actually used for a ring of `radius` pixels
/// when `line_width` units were asked for: a stroke wider than the radius is narrowed to it.
pub open spec fn effective_line_width(radius: int, line_width: int) -> int {
    if radius * SUBPIXELS - line_width < 0 {
        radius * SUBPIXELS
    } else {
        line_width
    }
}

/// The radius (in sub-pixel units) of the path that the ring is stroked along: the
/// ring's radius less half the stroke, or zero when the stroke does not fit.
pub open spec fn delta_of(radius: int, line_width: int) -> int {
    if radius * SUBPIXELS - line_width < 0 {
        0
    } else {
        radius * SUBPIXELS - trunc_div(line_width, 2)
    }
}

/// Stroke width and path radius for one paint, both in sub-pixel units.
#[derive(Clone, Copy, Debug, PartialEq, Eq, Structural)]
pub struct RingStroke {
    pub line_width: i64,
    pub delta: i64,
}

/// Centre of a surface extent in whole pixels.
pub fn center(extent: i32) -> (c: i32)
    ensures
        c == center_of(extent as int),
{
    extent / 2
}

/// Radius, in whole pixels, of the ring drawn around the centre of a surface.
pub fn calculate_radius(center_x: i32, center_y: i32) -> (r: i64)
    ensures
        r == radius_of(center_x as int, center_y as int),
{
    let x = center_x as i64;
    let y = center_y as i64 - 1;
    if x <= y {
        x
    } else {
        y
    }
}

/// Clamps the requested stroke to the ring of `radius` pixels and finds the path radius.
/// The requested width is left as it is where it fits; the state that asked for it is
/// never changed.
pub fn stroke_for(radius: i64, line_width: i32) -> (s: RingStroke)
    requires
        i32::MIN <= radius <= i32::MAX,
    ensures
        s.line_width == effective_line_width(radius as int, line_width as int),
        s.delta == delta_of(radius as int, line_width as int),
{
    let r = radius * SUBPIXELS;
    let w = line_width as i64;
    if r - w < 0 {
        RingStroke { line_width: r, delta: 0 }
    } else {
        RingStroke { line_width: w, delta: r - w / 2 }
    }
}

/// On every surface at least two pixels tall, the ring's radius is never negative.
pub proof fn lemma_radius_nonnegative(width: int, height: int)
    requires
        width > 0,
        height >= 2,
    ensures
        radius_of(center_of(width), center_of(height)) >= 0,
{
}

/// A stroke wider than the ring is narrowed to the ring's radius and drawn along a
/// path of radius zero.
pub proof fn lemma_wide_stroke_collapses(radius: int, line_width: int)
    requires
        line_width > radius * SUBPIXELS,
    ensures
        delta_of(radius, line_width) == 0,
        effective_line_width(radius, line_width) == radius * SUBPIXELS,
{
}

/// A stroke that fits keeps its width, and its path stays within the ring and
/// outside its centre.
pub proof fn lemma_fitting_stroke(radius: int, line_width: int)
    requires
        0 <= line_width <= radius * SUBPIXELS,
    ensures
        effective_line_width(radius, line_width) == line_width,
        0 <= radius * SUBPIXELS - line_width <= delta_of(radius, line_width) <= radius * SUBPIXELS,
{
}

} // verus!
