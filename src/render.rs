//! Building the full grid of cells for one frame.

use vstd::prelude::*;
use vstd::arithmetic::div_mod::lemma_fundamental_div_mod_converse;
use crate::config::ColorMode;
use crate::pixels::{pixels_wf, PixelBuffer, PixelView};
use crate::sampler::{cell_spec, sample_cell, RenderableCell};
use crate::surface::{surface_wf, SurfaceView, TerminalSurface};

verus! {

/// The cells of a frame in row-major order: entry `i` is the cell at column
/// `i % cols`, row `i / cols`.
pub open spec fn frame_spec(buf: PixelView, s: SurfaceView, mode: ColorMode) -> Seq<RenderableCell> {
    Seq::new(
        (s.cols * s.rows) as nat,
        |i: int| cell_spec(buf, s, mode, i % (s.cols as int), i / (s.cols as int)),
    )
}

proof fn lemma_row_major_index(x: int, y: int, cols: int, rows: int)
    requires
        0 <= x < cols,
        0 <= y < rows,
    ensures
        (y * cols + x) % cols == x,
        (y * cols + x) / cols == y,
        0 <= y * cols + x < cols * rows,
{
    lemma_fundamental_div_mod_converse(y * cols + x, cols, y, x);
    assert(0 <= y * cols + x < cols * rows) by (nonlinear_arith)
        requires
            0 <= x < cols,
            0 <= y < rows,
    ;
}

proof fn lemma_frame_complete(
    cells: Seq<RenderableCell>,
    buf: PixelView,
    s: SurfaceView,
    mode: ColorMode,
)
    requires
        s.cols >= 1,
        cells.len() == (s.cols as int) * (s.rows as int),
        forall|i: int|
            0 <= i < cells.len() ==> #[trigger] cells[i] == cell_spec(
                buf,
                s,
                mode,
                i % (s.cols as int),
                i / (s.cols as int),
            ),
    ensures
        cells == frame_spec(buf, s, mode),
        forall|x: int, y: int|
            0 <= x < s.cols && 0 <= y < s.rows ==> #[trigger] cell_spec(buf, s, mode, x, y)
                == cells[y * s.cols + x],
{
    assert(cells =~= frame_spec(buf, s, mode));
    assert forall|x: int, y: int| 0 <= x < s.cols && 0 <= y < s.rows implies #[trigger] cell_spec(
        buf,
        s,
        mode,
        x,
        y,
    ) == cells[y * s.cols + x] by {
        lemma_row_major_index(x, y, s.cols as int, s.rows as int);
    }
}

/// Samples every cell of the surface, row by row and, within a row, column by
/// column. The cell at column `x`, row `y` stands at index `y * cols + x`.
pub fn render_frame(buf: &PixelBuffer, surface: &TerminalSurface, mode: ColorMode) -> (r: Vec<
    RenderableCell,
>)
    requires
        pixels_wf(buf@),
        surface_wf(surface@),
    ensures
        r@ == frame_spec(buf@, surface@, mode),
        forall|x: int, y: int|
            0 <= x < surface@.cols && 0 <= y < surface@.rows ==> #[trigger] cell_spec(
                buf@,
                surface@,
                mode,
                x,
                y,
            ) == r@[y * surface@.cols + x],
{
    let cols = surface.cols();
    let rows = surface.rows();
    let ghost c = cols as int;
    let mut cells: Vec<RenderableCell> = Vec::new();
    let mut y: u16 = 0;
    while y < rows
        invariant
            cols == surface@.cols,
            rows == surface@.rows,
            c == cols,
            cols >= 1,
            y <= rows,
            pixels_wf(buf@),
            surface_wf(surface@),
            cells@.len() == (y as int) * c,
            forall|i: int|
                0 <= i < cells@.len() ==> #[trigger] cells@[i] == cell_spec(
                    buf@,
                    surface@,
                    mode,
                    i % c,
                    i / c,
                ),
        decreases rows - y,
    {
        let mut x: u16 = 0;
        while x < cols
            invariant
                cols == surface@.cols,
                rows == surface@.rows,
                c == cols,
                cols >= 1,
                y < rows,
                x <= cols,
                pixels_wf(buf@),
                surface_wf(surface@),
                cells@.len() == (y as int) * c + (x as int),
                forall|i: int|
                    0 <= i < cells@.len() ==> #[trigger] cells@[i] == cell_spec(
                        buf@,
                        surface@,
                        mode,
                        i % c,
                        i / c,
                    ),
            decreases cols - x,
        {
            let cell = sample_cell(buf, surface, mode, x, y);
            proof {
                lemma_row_major_index(x as int, y as int, c, rows as int);
            }
            let ghost before = cells@;
            cells.push(cell);
            proof {
                assert(cells@ == before.push(cell));
                assert(cells@[(y as int) * c + (x as int)] == cell);
            }
            x = x + 1;
        }
        assert((y as int) * c + c == ((y + 1) as int) * c) by (nonlinear_arith);
        y = y + 1;
    }
    proof {
        assert((rows as int) * c == c * (rows as int)) by (nonlinear_arith);
        lemma_frame_complete(cells@, buf@, surface@, mode);
    }
    cells
}

} // verus!
