use crate::grid::{lemma_row_major_in_bounds, lemma_row_major_injective, row_major};
use crate::reader::traits::DemReaderError;
use crate::text::{decimal, decimal_text};
use vstd::prelude::*;

verus! {

/// Reader for any dataset GDAL can open, local or remote.
#[derive(Debug, Clone, Copy)]
pub struct GdalReader;

/// Number of pixels a window spans between its first pixel and the pixel
/// past its far corner; a window is always at least one pixel wide, so that a
/// region smaller than a pixel still yields an elevation.
pub open spec fn window_extent(first: int, past: int) -> int {
    if past - first >= 1 {
        past - first
    } else {
        1
    }
}

/// The message for a prefetch window that does not fit in the raster.
pub open spec fn window_out_of_bounds_message(
    raster_width: int,
    raster_height: int,
    origin_px: int,
    origin_py: int,
    max_px: int,
    max_py: int,
) -> Seq<char> {
    "Calculated pixel coordinates for bbox are out of bounds of the dataset raster size (width: "@
        + decimal(raster_width) + ", height: "@ + decimal(raster_height)
        + "). Calculated origin pixel: ("@ + decimal(origin_px) + ", "@ + decimal(origin_py)
        + "), max pixel: ("@ + decimal(max_px) + ", "@ + decimal(max_py) + ")."@
}

/// The pixel window to read for a region whose top-left corner falls in
/// pixel `(origin_px, origin_py)` and whose bottom-right corner falls in
/// pixel `(max_px, max_py)`: its width and height when it lies within a
/// raster of `raster_width` x `raster_height` pixels, else the message that
/// says it does not.
pub open spec fn prefetch_window_outcome(
    origin_px: int,
    origin_py: int,
    max_px: int,
    max_py: int,
    raster_width: int,
    raster_height: int,
) -> Result<(int, int), Seq<char>> {
    let width = window_extent(origin_px, max_px);
    let height = window_extent(origin_py, max_py);
    if origin_px < 0 || origin_py < 0 || origin_px + width > raster_width || origin_py + height
        > raster_height {
        Err(
            window_out_of_bounds_message(
                raster_width,
                raster_height,
                origin_px,
                origin_py,
                max_px,
                max_py,
            ),
        )
    } else {
        Ok((width, height))
    }
}

/// The message for a point whose pixel falls outside the prefetched window.
pub open spec fn local_pixel_message(local_px: int, local_py: int, width: int, height: int) -> Seq<
    char,
> {
    "Calculated local pixel coordinates ("@ + decimal(local_px) + ", "@ + decimal(local_py)
        + ") are out of bounds for prefetched region with width "@ + decimal(width)
        + " and height "@ + decimal(height) + "."@
}

/// The message for a cell index past the end of the prefetched data.
pub open spec fn cell_index_message(index: int, len: int) -> Seq<char> {
    "Calculated index "@ + decimal(index) + " is out of bounds for prefetched data with length "@
        + decimal(len) + "."@
}

/// Where the elevation of pixel `(px, py)` is stored in the row-major data
/// (`data_len` values) of a window `width` x `height` pixels wide whose first
/// pixel is `(origin_px, origin_py)`; or the message that says it is not there.
pub open spec fn cell_index_outcome(
    px: int,
    py: int,
    origin_px: int,
    origin_py: int,
    width: int,
    height: int,
    data_len: int,
) -> Result<int, Seq<char>> {
    let local_px = px - origin_px;
    let local_py = py - origin_py;
    if local_px < 0 || local_py < 0 || local_px >= width || local_py >= height {
        Err(local_pixel_message(local_px, local_py, width, height))
    } else if row_major(width, local_px, local_py) >= data_len {
        Err(cell_index_message(row_major(width, local_px, local_py), data_len))
    } else {
        Ok(row_major(width, local_px, local_py))
    }
}

impl GdalReader {
    /// The window of raster pixels to read for a region: from the pixel of its
    /// top-left corner `(origin_px, origin_py)` to the pixel of its
    /// bottom-right corner `(max_px, max_py)`, at least one pixel each way.
    /// Fails with `OutOfBounds` when the window does not lie within the
    /// raster.
    pub fn prefetch_window(
        origin_px: isize,
        origin_py: isize,
        max_px: isize,
        max_py: isize,
        raster_width: usize,
        raster_height: usize,
    ) -> (r: Result<(usize, usize), DemReaderError>)
        ensures
            match r {
                Ok((w, h)) => prefetch_window_outcome(
                    origin_px as int,
                    origin_py as int,
                    max_px as int,
                    max_py as int,
                    raster_width as int,
                    raster_height as int,
                ) == Ok::<(int, int), Seq<char>>((w as int, h as int)),
                Err(DemReaderError::OutOfBounds(m)) => prefetch_window_outcome(
                    origin_px as int,
                    origin_py as int,
                    max_px as int,
                    max_py as int,
                    raster_width as int,
                    raster_height as int,
                ) == Err::<(int, int), Seq<char>>(m@),
                Err(_) => false,
            },
            r is Ok <==> ({
                let w = if max_px - origin_px >= 1 {
                    max_px - origin_px
                } else {
                    1
                };
                let h = if max_py - origin_py >= 1 {
                    max_py - origin_py
                } else {
                    1
                };
                &&& origin_px >= 0
                &&& origin_py >= 0
                &&& origin_px + w <= raster_width
                &&& origin_py + h <= raster_height
            }),
            r matches Ok((w, h)) ==> w >= 1 && h >= 1 && w >= max_px - origin_px && h >= max_py
                - origin_py && (w == 1 || w == max_px - origin_px) && (h == 1 || h == max_py
                - origin_py),
    {
        proof {
            lemma_prefetch_window_accepts_exactly_fitting_windows(
                origin_px as int,
                origin_py as int,
                max_px as int,
                max_py as int,
                raster_width as int,
                raster_height as int,
            );
        }
        let dx: i128 = max_px as i128 - origin_px as i128;
        let dy: i128 = max_py as i128 - origin_py as i128;
        let width: i128 = if dx >= 1 {
            dx
        } else {
            1
        };
        let height: i128 = if dy >= 1 {
            dy
        } else {
            1
        };
        if origin_px < 0 || origin_py < 0 || origin_px as i128 + width > raster_width as i128
            || origin_py as i128 + height > raster_height as i128 {
            let mut m = String::from_str(
                "Calculated pixel coordinates for bbox are out of bounds of the dataset raster size (width: ",
            );
            m.append(decimal_text(raster_width as i128).as_str());
            m.append(", height: ");
            m.append(decimal_text(raster_height as i128).as_str());
            m.append("). Calculated origin pixel: (");
            m.append(decimal_text(origin_px as i128).as_str());
            m.append(", ");
            m.append(decimal_text(origin_py as i128).as_str());
            m.append("), max pixel: (");
            m.append(decimal_text(max_px as i128).as_str());
            m.append(", ");
            m.append(decimal_text(max_py as i128).as_str());
            m.append(").");
            proof {
                assert(m@ =~= window_out_of_bounds_message(
                    raster_width as int,
                    raster_height as int,
                    origin_px as int,
                    origin_py as int,
                    max_px as int,
                    max_py as int,
                ));
            }
            return Err(DemReaderError::OutOfBounds(m));
        }
        Ok((width as usize, height as usize))
    }

    /// Where the elevation of pixel `(px, py)` is stored in the row-major
    /// data (`data_len` values) read for a window `width` x `height` pixels
    /// wide whose first pixel is `(origin_px, origin_py)`. Fails with
    /// `OutOfBounds` when the pixel lies outside the window or its cell past
    /// the end of the data.
    pub fn cell_index(
        px: isize,
        py: isize,
        origin_px: isize,
        origin_py: isize,
        width: usize,
        height: usize,
        data_len: usize,
    ) -> (r: Result<usize, DemReaderError>)
        requires
            ({
                let lx = px - origin_px;
                let ly = py - origin_py;
                0 <= lx < width && 0 <= ly < height ==> row_major(width as int, lx, ly)
                    <= usize::MAX
            }),
        ensures
            match r {
                Ok(i) => cell_index_outcome(
                    px as int,
                    py as int,
                    origin_px as int,
                    origin_py as int,
                    width as int,
                    height as int,
                    data_len as int,
                ) == Ok::<int, Seq<char>>(i as int),
                Err(DemReaderError::OutOfBounds(m)) => cell_index_outcome(
                    px as int,
                    py as int,
                    origin_px as int,
                    origin_py as int,
                    width as int,
                    height as int,
                    data_len as int,
                ) == Err::<int, Seq<char>>(m@),
                Err(_) => false,
            },
    {
        let local_px: i128 = px as i128 - origin_px as i128;
        let local_py: i128 = py as i128 - origin_py as i128;
        if local_px < 0 || local_py < 0 || local_px >= width as i128 || local_py >= height as i128 {
            let mut m = String::from_str("Calculated local pixel coordinates (");
            m.append(decimal_text(local_px).as_str());
            m.append(", ");
            m.append(decimal_text(local_py).as_str());
            m.append(") are out of bounds for prefetched region with width ");
            m.append(decimal_text(width as i128).as_str());
            m.append(" and height ");
            m.append(decimal_text(height as i128).as_str());
            m.append(".");
            proof {
                assert(m@ =~= local_pixel_message(
                    local_px as int,
                    local_py as int,
                    width as int,
                    height as int,
                ));
            }
            return Err(DemReaderError::OutOfBounds(m));
        }
        let lx: usize = local_px as usize;
        let ly: usize = local_py as usize;
        proof {
            lemma_row_major_in_bounds(width as int, height as int, lx as int, ly as int);
        }
        let idx: usize = ly * width + lx;
        if idx >= data_len {
            let mut m = String::from_str("Calculated index ");
            m.append(decimal_text(idx as i128).as_str());
            m.append(" is out of bounds for prefetched data with length ");
            m.append(decimal_text(data_len as i128).as_str());
            m.append(".");
            proof {
                assert(m@ =~= cell_index_message(idx as int, data_len as int));
            }
            return Err(DemReaderError::OutOfBounds(m));
        }
        Ok(idx)
    }
}

/// A window is accepted exactly when it lies within the raster: it starts at
/// a non-negative pixel and its last column and row are inside the raster's
/// width and height. An accepted window spans from its first pixel to the
/// pixel of the far corner, and at least one pixel each way.
pub proof fn lemma_prefetch_window_accepts_exactly_fitting_windows(
    origin_px: int,
    origin_py: int,
    max_px: int,
    max_py: int,
    raster_width: int,
    raster_height: int,
)
    ensures
        prefetch_window_outcome(origin_px, origin_py, max_px, max_py, raster_width, raster_height)
            is Ok <==> ({
            let w = if max_px - origin_px >= 1 {
                max_px - origin_px
            } else {
                1
            };
            let h = if max_py - origin_py >= 1 {
                max_py - origin_py
            } else {
                1
            };
            &&& origin_px >= 0
            &&& origin_py >= 0
            &&& origin_px + w <= raster_width
            &&& origin_py + h <= raster_height
        }),
        prefetch_window_outcome(origin_px, origin_py, max_px, max_py, raster_width, raster_height)
            matches Ok((w, h)) ==> w >= 1 && h >= 1 && w >= max_px - origin_px && h >= max_py
            - origin_py && (w == 1 || w == max_px - origin_px) && (h == 1 || h == max_py
            - origin_py),
{
}

/// A pixel is found exactly when it lies inside the window and its row-major
/// position, counted from the window's first pixel, is inside the data; it is
/// then found at that position.
pub proof fn lemma_cell_index_finds_row_major_cell(
    px: int,
    py: int,
    origin_px: int,
    origin_py: int,
    width: int,
    height: int,
    data_len: int,
)
    ensures
        cell_index_outcome(px, py, origin_px, origin_py, width, height, data_len) is Ok <==> (0
            <= px - origin_px < width && 0 <= py - origin_py < height && (py - origin_py) * width
            + (px - origin_px) < data_len),
        cell_index_outcome(px, py, origin_px, origin_py, width, height, data_len) matches Ok(i)
            ==> i == (py - origin_py) * width + (px - origin_px),
{
}

/// Every pixel of a window accepted for prefetching is found again, at its
/// row-major position, in the data read for that window.
pub proof fn lemma_prefetched_pixels_are_addressable(
    origin_px: int,
    origin_py: int,
    max_px: int,
    max_py: int,
    raster_width: int,
    raster_height: int,
    px: int,
    py: int,
)
    requires
        prefetch_window_outcome(
            origin_px,
            origin_py,
            max_px,
            max_py,
            raster_width,
            raster_height,
        ) is Ok,
        origin_px <= px < origin_px + window_extent(origin_px, max_px),
        origin_py <= py < origin_py + window_extent(origin_py, max_py),
    ensures
        ({
            let width = window_extent(origin_px, max_px);
            let height = window_extent(origin_py, max_py);
            &&& cell_index_outcome(px, py, origin_px, origin_py, width, height, width * height)
                == Ok::<int, Seq<char>>(row_major(width, px - origin_px, py - origin_py))
            &&& 0 <= row_major(width, px - origin_px, py - origin_py) < width * height
        }),
{
    let width = window_extent(origin_px, max_px);
    let height = window_extent(origin_py, max_py);
    lemma_row_major_in_bounds(width, height, px - origin_px, py - origin_py);
}

/// Two different pixels of a prefetched window never share a cell of the data
/// read for it.
pub proof fn lemma_prefetched_pixels_have_distinct_cells(
    origin_px: int,
    origin_py: int,
    width: int,
    height: int,
    px1: int,
    py1: int,
    px2: int,
    py2: int,
)
    requires
        origin_px <= px1 < origin_px + width,
        origin_py <= py1 < origin_py + height,
        origin_px <= px2 < origin_px + width,
        origin_py <= py2 < origin_py + height,
        (px1, py1) != (px2, py2),
    ensures
        cell_index_outcome(px1, py1, origin_px, origin_py, width, height, width * height)
            != cell_index_outcome(px2, py2, origin_px, origin_py, width, height, width * height),
{
    lemma_row_major_in_bounds(width, height, px1 - origin_px, py1 - origin_py);
    lemma_row_major_in_bounds(width, height, px2 - origin_px, py2 - origin_py);
    if row_major(width, px1 - origin_px, py1 - origin_py) == row_major(
        width,
        px2 - origin_px,
        py2 - origin_py,
    ) {
        lemma_row_major_injective(
            width,
            px1 - origin_px,
            py1 - origin_py,
            px2 - origin_px,
            py2 - origin_py,
        );
    }
}

} // verus!
