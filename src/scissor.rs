//! Scissor rectangles: a clip rectangle in physical pixels, clamped to the
//! surface and flipped so that the origin is at the bottom-left corner.

use vstd::prelude::*;

verus! {

/// A clip rectangle in physical pixels, with the origin at the top-left
/// corner of the surface. Its corners may lie outside the surface.
#[derive(Clone, Copy, Debug, PartialEq, Eq, Structural)]
pub struct PixelRect {
    pub min_x: i64,
    pub min_y: i64,
    pub max_x: i64,
    pub max_y: i64,
}

/// A scissor region in pixels, with the origin at the bottom-left corner.
#[derive(Clone, Copy, Debug, PartialEq, Eq, Structural)]
pub struct ScissorRegion {
    pub x: u32,
    pub y: u32,
    pub w: u32,
    pub h: u32,
}

/// `v` brought into `[lo, hi]`.
pub open spec fn clamp(v: int, lo: int, hi: int) -> int {
    if v < lo {
        lo
    } else if v > hi {
        hi
    } else {
        v
    }
}

/// The scissor region that `clip` gives on a surface of `width` by `height`
/// pixels: each edge is clamped to the surface (the far edges no nearer than
/// the near ones), and the y axis is flipped.
pub open spec fn scissor_of(width: u32, height: u32, clip: PixelRect) -> ScissorRegion {
    let x0 = clamp(clip.min_x as int, 0, width as int);
    let y0 = clamp(clip.min_y as int, 0, height as int);
    let x1 = clamp(clip.max_x as int, x0, width as int);
    let y1 = clamp(clip.max_y as int, y0, height as int);
    ScissorRegion {
        x: x0 as u32,
        y: (height - y1) as u32,
        w: (x1 - x0) as u32,
        h: (y1 - y0) as u32,
    }
}

fn clamp_i64(v: i64, lo: i64, hi: i64) -> (r: i64)
    requires
        lo <= hi,
    ensures
        r as int == clamp(v as int, lo as int, hi as int),
{
    if v < lo {
        lo
    } else if v > hi {
        hi
    } else {
        v
    }
}

/// Computes the scissor region of `clip` on a surface of `dimensions`
/// (width, height) pixels.
pub fn scissor_region(dimensions: [u32; 2], clip: PixelRect) -> (r: ScissorRegion)
    ensures
        r == scissor_of(dimensions[0], dimensions[1], clip),
{
    let width = dimensions[0];
    let height = dimensions[1];
    let x0 = clamp_i64(clip.min_x, 0, width as i64);
    let y0 = clamp_i64(clip.min_y, 0, height as i64);
    let x1 = clamp_i64(clip.max_x, x0, width as i64);
    let y1 = clamp_i64(clip.max_y, y0, height as i64);
    ScissorRegion {
        x: x0 as u32,
        y: (height as i64 - y1) as u32,
        w: (x1 - x0) as u32,
        h: (y1 - y0) as u32,
    }
}

/// A scissor region never reaches outside the surface: its left and bottom
/// edges are at least zero (its fields are unsigned) and its right and top
/// edges at most the surface's width and height. A clip rectangle whose far
/// corner lies beyond the surface is cut at the surface's edges.
pub proof fn lemma_scissor_within_surface(width: u32, height: u32, clip: PixelRect)
    ensures
        ({
            let r = scissor_of(width, height, clip);
            &&& r.x + r.w <= width
            &&& r.y + r.h <= height
            &&& clip.max_x >= width ==> r.x + r.w == width
            &&& clip.max_y >= height ==> r.y == 0 && r.h == height - clamp(
                clip.min_y as int,
                0,
                height as int,
            )
        }),
{
}

} // verus!
