//! The terminal surface: its size in cells and the scale from cells to source
//! pixels.

use vstd::prelude::*;

verus! {

/// A ratio of source pixels to terminal cells along one axis: `pixels / cells`
/// source pixels per cell.
#[derive(Clone, Copy, Debug, PartialEq, Eq, Structural)]
pub struct Scale {
    pub pixels: u32,
    pub cells: u16,
}

/// The source coordinate that cell coordinate `c` maps to under scale `s`:
/// `floor(c * pixels / cells)`.
pub open spec fn scaled(c: int, s: Scale) -> int {
    (c * s.pixels) / (s.cells as int)
}

/// What a surface holds, as plain values.
pub struct SurfaceView {
    pub cols: u16,
    pub rows: u16,
    pub image_width: u32,
    pub image_height: u32,
    pub scale_x: Scale,
    pub scale_y: Scale,
}

/// A surface is consistent when it has at least one cell each way and both
/// scale factors are those of its current size.
pub open spec fn surface_wf(v: SurfaceView) -> bool {
    &&& v.cols >= 1
    &&& v.rows >= 1
    &&& v.scale_x == (Scale { pixels: v.image_width, cells: v.cols })
    &&& v.scale_y == (Scale { pixels: v.image_height, cells: v.rows })
}

/// A size in cells with zero raised to one.
pub open spec fn at_least_one(n: u16) -> u16 {
    if n == 0 {
        1
    } else {
        n
    }
}

/// The surface that a resize to `cols` by `rows` cells leaves.
pub open spec fn resized(v: SurfaceView, cols: u16, rows: u16) -> SurfaceView {
    SurfaceView {
        cols: at_least_one(cols),
        rows: at_least_one(rows),
        image_width: v.image_width,
        image_height: v.image_height,
        scale_x: Scale { pixels: v.image_width, cells: at_least_one(cols) },
        scale_y: Scale { pixels: v.image_height, cells: at_least_one(rows) },
    }
}

/// The current terminal size and the scale factors derived from it and from
/// the fixed size of the source images. Both factors are only ever set
/// together with the size they come from.
pub struct TerminalSurface {
    cols: u16,
    rows: u16,
    image_width: u32,
    image_height: u32,
    scale_x: Scale,
    scale_y: Scale,
}

impl View for TerminalSurface {
    type V = SurfaceView;

    closed spec fn view(&self) -> SurfaceView {
        SurfaceView {
            cols: self.cols,
            rows: self.rows,
            image_width: self.image_width,
            image_height: self.image_height,
            scale_x: self.scale_x,
            scale_y: self.scale_y,
        }
    }
}

fn at_least_one_exec(n: u16) -> (r: u16)
    ensures
        r == at_least_one(n),
{
    if n == 0 {
        1
    } else {
        n
    }
}

impl TerminalSurface {
    /// A surface of `cols` by `rows` cells for images of the given size. A
    /// zero size is raised to one cell so that a scale is always defined.
    pub fn new(image_width: u32, image_height: u32, cols: u16, rows: u16) -> (r: TerminalSurface)
        ensures
            surface_wf(r@),
            r@.image_width == image_width,
            r@.image_height == image_height,
            r@.cols == at_least_one(cols),
            r@.rows == at_least_one(rows),
    {
        let c = at_least_one_exec(cols);
        let r = at_least_one_exec(rows);
        TerminalSurface {
            cols: c,
            rows: r,
            image_width,
            image_height,
            scale_x: Scale { pixels: image_width, cells: c },
            scale_y: Scale { pixels: image_height, cells: r },
        }
    }

    /// Takes a new terminal size; both scale factors are recomputed in the same
    /// step. A zero size is raised to one cell.
    pub fn resize(&mut self, cols: u16, rows: u16)
        ensures
            surface_wf(final(self)@),
            final(self)@.cols == at_least_one(cols),
            final(self)@.rows == at_least_one(rows),
            final(self)@.image_width == old(self)@.image_width,
            final(self)@.image_height == old(self)@.image_height,
            final(self)@.scale_x == (Scale { pixels: old(self)@.image_width, cells: at_least_one(cols) }),
            final(self)@.scale_y == (Scale { pixels: old(self)@.image_height, cells: at_least_one(rows) }),
            final(self)@ == resized(old(self)@, cols, rows),
    {
        *self = TerminalSurface::new(self.image_width, self.image_height, cols, rows);
    }

    pub fn cols(&self) -> (r: u16)
        ensures
            r == self@.cols,
    {
        self.cols
    }

    pub fn rows(&self) -> (r: u16)
        ensures
            r == self@.rows,
    {
        self.rows
    }

    pub fn image_width(&self) -> (r: u32)
        ensures
            r == self@.image_width,
    {
        self.image_width
    }

    pub fn image_height(&self) -> (r: u32)
        ensures
            r == self@.image_height,
    {
        self.image_height
    }

    pub fn scale_x(&self) -> (r: Scale)
        ensures
            r == self@.scale_x,
    {
        self.scale_x
    }

    pub fn scale_y(&self) -> (r: Scale)
        ensures
            r == self@.scale_y,
    {
        self.scale_y
    }
}

/// The source coordinate of cell coordinate `c` under scale `s`, computed
/// without overflow.
pub fn scale_coord(c: u16, s: Scale) -> (r: u64)
    requires
        s.cells >= 1,
    ensures
        r == scaled(c as int, s),
{
    proof {
        assert((c as int) * (s.pixels as int) <= 0xffff * 0xffff_ffff) by (nonlinear_arith)
            requires
                c <= 0xffff,
                s.pixels <= 0xffff_ffff,
        ;
    }
    (c as u64) * (s.pixels as u64) / (s.cells as u64)
}

} // verus!
