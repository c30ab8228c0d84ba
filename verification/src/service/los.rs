//! Text rendering of viewshed grids.
use crate::grid::{lemma_row_major_in_bounds, row_major};
use vstd::prelude::*;

verus! {

/// The character that stands for one viewshed cell: the viewer's own cell,
/// a visible cell, or a hidden one.
pub open spec fn viewshed_glyph(is_viewer: bool, is_visible: bool) -> char {
    if is_viewer {
        'ಠ'
    } else if is_visible {
        '●'
    } else {
        '◯'
    }
}

/// Row `y` of a rendered viewshed of the given width: one glyph per cell,
/// then a line break.
pub open spec fn glyph_row(width: int, data: Seq<bool>, y: int, viewer_x: int, viewer_y: int) -> Seq<
    char,
> {
    Seq::new(
        width as nat,
        |x: int| viewshed_glyph(x == viewer_x && y == viewer_y, data[row_major(width, x, y)]),
    ).push('\n')
}

/// The first `rows` rows of a rendered viewshed, top row first.
pub open spec fn glyph_rows(width: int, data: Seq<bool>, rows: nat, viewer_x: int, viewer_y: int) -> Seq<
    char,
>
    decreases rows,
{
    if rows == 0 {
        Seq::empty()
    } else {
        glyph_rows(width, data, (rows - 1) as nat, viewer_x, viewer_y) + glyph_row(
            width,
            data,
            rows - 1,
            viewer_x,
            viewer_y,
        )
    }
}

/// Renders a row-major viewshed grid of `width` x `height` cells as text,
/// one line per row from the top, marking the viewer's cell
/// `(viewer_x, viewer_y)` and telling visible cells from hidden ones.
pub fn viewshed_glyphs(
    width: usize,
    height: usize,
    data: &Vec<bool>,
    viewer_x: usize,
    viewer_y: usize,
) -> (out: Vec<char>)
    requires
        data@.len() >= (width as int) * (height as int),
    ensures
        out@ == glyph_rows(width as int, data@, height as nat, viewer_x as int, viewer_y as int),
{
    let cells: usize = data.len();
    let mut out: Vec<char> = Vec::new();
    let mut y: usize = 0;
    while y < height
        invariant
            y <= height,
            data@.len() >= (width as int) * (height as int),
            cells == data@.len(),
            out@ == glyph_rows(width as int, data@, y as nat, viewer_x as int, viewer_y as int),
        decreases height - y,
    {
        let mut x: usize = 0;
        while x < width
            invariant
                x <= width,
                y < height,
                data@.len() >= (width as int) * (height as int),
                cells == data@.len(),
                out@ == glyph_rows(width as int, data@, y as nat, viewer_x as int, viewer_y as int)
                    + Seq::new(
                    x as nat,
                    |k: int|
                        viewshed_glyph(
                            k == viewer_x && y == viewer_y,
                            data@[row_major(width as int, k, y as int)],
                        ),
                ),
            decreases width - x,
        {
            proof {
                lemma_row_major_in_bounds(width as int, height as int, x as int, y as int);
            }
            let is_viewer = x == viewer_x && y == viewer_y;
            let is_visible = data[y * width + x];
            let ch = if is_viewer {
                'ಠ'
            } else if is_visible {
                '●'
            } else {
                '◯'
            };
            out.push(ch);
            x = x + 1;
        }
        out.push('\n');
        proof {
            assert(glyph_row(width as int, data@, y as int, viewer_x as int, viewer_y as int) =~= Seq::new(
                width as nat,
                |k: int|
                    viewshed_glyph(
                        k == viewer_x && y == viewer_y,
                        data@[row_major(width as int, k, y as int)],
                    ),
            ).push('\n'));
            assert(out@ =~= glyph_rows(
                width as int,
                data@,
                (y + 1) as nat,
                viewer_x as int,
                viewer_y as int,
            ));
        }
        y = y + 1;
    }
    out
}

/// A rendered viewshed has one line per row, each `width` glyphs long plus a
/// line break, and the glyph of cell `(x, y)` stands at column `x` of line
/// `y`: it marks the viewer at the viewer's cell, and elsewhere tells whether
/// the cell is visible.
pub proof fn lemma_glyph_layout(
    width: nat,
    data: Seq<bool>,
    rows: nat,
    viewer_x: int,
    viewer_y: int,
    x: int,
    y: int,
)
    requires
        0 <= x < width,
        0 <= y < rows,
    ensures
        glyph_rows(width as int, data, rows, viewer_x, viewer_y).len() == rows * (width + 1),
        glyph_rows(width as int, data, rows, viewer_x, viewer_y)[y * (width + 1) + x]
            == viewshed_glyph(x == viewer_x && y == viewer_y, data[row_major(width as int, x, y)]),
        glyph_rows(width as int, data, rows, viewer_x, viewer_y)[y * (width + 1) + width] == '\n',
    decreases rows,
{
    lemma_glyph_rows_len(width, data, rows, viewer_x, viewer_y);
    lemma_glyph_rows_len(width, data, (rows - 1) as nat, viewer_x, viewer_y);
    let prefix = glyph_rows(width as int, data, (rows - 1) as nat, viewer_x, viewer_y);
    let last = glyph_row(width as int, data, rows - 1, viewer_x, viewer_y);
    assert(glyph_rows(width as int, data, rows, viewer_x, viewer_y) == prefix + last);
    if y < rows - 1 {
        lemma_glyph_layout(width, data, (rows - 1) as nat, viewer_x, viewer_y, x, y);
        assert(y * (width + 1) + width < (rows - 1) * (width + 1)) by (nonlinear_arith)
            requires
                0 <= y < rows - 1,
        ;
    } else {
        assert(y * (width + 1) == (rows - 1) * (width + 1));
    }
}

/// A rendered viewshed of `rows` rows holds `rows * (width + 1)` characters.
pub proof fn lemma_glyph_rows_len(width: nat, data: Seq<bool>, rows: nat, viewer_x: int, viewer_y: int)
    ensures
        glyph_rows(width as int, data, rows, viewer_x, viewer_y).len() == rows * (width + 1),
    decreases rows,
{
    if rows > 0 {
        lemma_glyph_rows_len(width, data, (rows - 1) as nat, viewer_x, viewer_y);
        assert(glyph_row(width as int, data, rows - 1, viewer_x, viewer_y).len() == width + 1);
        assert(rows * (width + 1) == (rows - 1) * (width + 1) + width + 1) by (nonlinear_arith)
            requires
                rows > 0,
        ;
    } else {
        assert(rows * (width + 1) == 0) by (nonlinear_arith)
            requires
                rows == 0,
        ;
    }
}

} // verus!
