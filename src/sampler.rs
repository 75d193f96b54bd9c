//! Sampling a frame at a cell and turning the sampled pixel into a cell.

use vstd::prelude::*;
use crate::config::ColorMode;
use crate::pixels::{luma, pixel_at, pixels_wf, rgb_luma, PixelBuffer, PixelView, Rgb};
use crate::surface::{scale_coord, scaled, surface_wf, SurfaceView, TerminalSurface};

verus! {

/// The character drawn in a cell.
#[derive(Clone, Copy, Debug, PartialEq, Eq, Structural)]
pub enum Glyph {
    /// A full block.
    Filled,
    /// A space.
    Blank,
}

/// One cell of a rendered frame: a glyph, colored or plain.
#[derive(Clone, Copy, Debug, PartialEq, Eq, Structural)]
pub struct RenderableCell {
    pub glyph: Glyph,
    pub color: Option<Rgb>,
}

/// The intensity from which a pixel counts as lit in two-tone mode.
pub const THRESHOLD: u8 = 130;

/// The two-tone cell for an intensity: a plain block from the threshold up,
/// a blank below it.
pub open spec fn two_tone_spec(intensity: int) -> RenderableCell {
    if intensity >= THRESHOLD {
        RenderableCell { glyph: Glyph::Filled, color: None }
    } else {
        RenderableCell { glyph: Glyph::Blank, color: None }
    }
}

/// The cell that a sampled pixel becomes in a mode.
pub open spec fn quantize_spec(mode: ColorMode, p: Rgb) -> RenderableCell {
    match mode {
        ColorMode::TrueColor => RenderableCell { glyph: Glyph::Filled, color: Some(p) },
        ColorMode::TwoTone => two_tone_spec(luma(p)),
    }
}

/// The smaller of a scaled coordinate and the last index below `size`.
pub open spec fn clamp_to(c: int, size: int) -> int {
    if c < size {
        c
    } else {
        size - 1
    }
}

/// The source pixel that cell `(cx, cy)` samples: the cell coordinate times the
/// scale, rounded down, and held inside the buffer should the buffer be
/// smaller than the images the scale was made for.
pub open spec fn source_point(buf: PixelView, s: SurfaceView, cx: int, cy: int) -> (int, int) {
    (
        clamp_to(scaled(cx, s.scale_x), buf.width as int),
        clamp_to(scaled(cy, s.scale_y), buf.height as int),
    )
}

/// The cell drawn at `(cx, cy)`.
pub open spec fn cell_spec(
    buf: PixelView,
    s: SurfaceView,
    mode: ColorMode,
    cx: int,
    cy: int,
) -> RenderableCell {
    let (x, y) = source_point(buf, s, cx, cy);
    quantize_spec(mode, pixel_at(buf, x, y))
}

/// The two-tone cell for an intensity.
pub fn two_tone_cell(intensity: u8) -> (r: RenderableCell)
    ensures
        r == two_tone_spec(intensity as int),
{
    if intensity >= THRESHOLD {
        RenderableCell { glyph: Glyph::Filled, color: None }
    } else {
        RenderableCell { glyph: Glyph::Blank, color: None }
    }
}

/// The cell that pixel `p` becomes in `mode`.
pub fn quantize(mode: ColorMode, p: Rgb) -> (r: RenderableCell)
    ensures
        r == quantize_spec(mode, p),
{
    match mode {
        ColorMode::TrueColor => RenderableCell { glyph: Glyph::Filled, color: Some(p) },
        ColorMode::TwoTone => two_tone_cell(rgb_luma(p)),
    }
}

fn clamp_coord(c: u64, size: u32) -> (r: u32)
    requires
        size >= 1,
    ensures
        r == clamp_to(c as int, size as int),
{
    if c < size as u64 {
        c as u32
    } else {
        size - 1
    }
}

/// Samples the buffer for the cell at column `cx`, row `cy` of the surface.
pub fn sample_cell(
    buf: &PixelBuffer,
    surface: &TerminalSurface,
    mode: ColorMode,
    cx: u16,
    cy: u16,
) -> (r: RenderableCell)
    requires
        pixels_wf(buf@),
        surface_wf(surface@),
    ensures
        r == cell_spec(buf@, surface@, mode, cx as int, cy as int),
{
    let sx = scale_coord(cx, surface.scale_x());
    let sy = scale_coord(cy, surface.scale_y());
    let x = clamp_coord(sx, buf.width());
    let y = clamp_coord(sy, buf.height());
    quantize(mode, buf.pixel(x, y))
}

/// Sampling depends on nothing but the cell, the scale and the pixels: equal
/// inputs give equal cells.
pub proof fn lemma_sampling_deterministic(
    b1: PixelView,
    b2: PixelView,
    s1: SurfaceView,
    s2: SurfaceView,
    mode: ColorMode,
    cx: int,
    cy: int,
)
    requires
        b1 == b2,
        s1.scale_x == s2.scale_x,
        s1.scale_y == s2.scale_y,
    ensures
        cell_spec(b1, s1, mode, cx, cy) == cell_spec(b2, s2, mode, cx, cy),
{
}

/// In true-color mode a cell carries exactly the color of the pixel it
/// samples, at the rounded-down scaled coordinate.
pub proof fn lemma_true_color_is_identity(b: PixelView, s: SurfaceView, cx: int, cy: int)
    requires
        pixels_wf(b),
        surface_wf(s),
        0 <= cx < s.cols,
        0 <= cy < s.rows,
        s.image_width <= b.width,
        s.image_height <= b.height,
    ensures
        cell_spec(b, s, ColorMode::TrueColor, cx, cy) == (RenderableCell {
            glyph: Glyph::Filled,
            color: Some(pixel_at(b, scaled(cx, s.scale_x), scaled(cy, s.scale_y))),
        }),
{
    lemma_scaled_below(cx, s.cols as int, s.image_width as int);
    lemma_scaled_below(cy, s.rows as int, s.image_height as int);
}

proof fn lemma_scaled_below(c: int, cells: int, pixels: int)
    requires
        0 <= c < cells,
        1 <= cells <= 0xffff,
        0 <= pixels <= 0xffff_ffff,
    ensures
        0 <= (c * pixels) / cells,
        pixels > 0 ==> (c * pixels) / cells < pixels,
        pixels == 0 ==> (c * pixels) / cells == 0,
{
    assert(0 <= c * pixels) by (nonlinear_arith)
        requires
            0 <= c,
            0 <= pixels,
    ;
    if pixels > 0 {
        assert(c * pixels < cells * pixels) by (nonlinear_arith)
            requires
                0 <= c < cells,
                pixels > 0,
        ;
        assert((c * pixels) / cells < pixels) by (nonlinear_arith)
            requires
                c * pixels < cells * pixels,
                cells >= 1,
                c * pixels >= 0,
        ;
    }
}

} // verus!
