use crate::grid::{lemma_row_major_in_bounds, row_major};
use crate::raster::{rgba_bytes_match, rgba_pixels, rgba_size, HighlightImage};
use vstd::prelude::*;

verus! {

/// Renders topographic maps with the part of the terrain that cannot be seen
/// from a viewer darkened and the viewer marked by a red dot.
pub struct HighlighterService {
    image_dpi: u32,
}

/// Radius, in pixels, of the dot that marks the viewer on the map.
pub const ORIGIN_MARKER_RADIUS: i32 = 10;

/// Colour of the dot that marks the viewer: opaque red.
pub open spec fn marker_pixel() -> (u8, u8, u8, u8) {
    (255u8, 0u8, 0u8, 255u8)
}

/// A channel value scaled to three fifths, rounded to the nearest integer.
pub open spec fn darkened(c: u8) -> u8 {
    ((6 * (c as int) + 5) / 10) as u8
}

/// The map pixel built from band values `(r, g, b)`: darkened when the
/// terrain there is known to be hidden from the viewer, kept as it is when it
/// is visible or outside the viewshed; always opaque.
pub open spec fn shaded_pixel(r: u8, g: u8, b: u8, visibility: Option<bool>) -> (u8, u8, u8, u8) {
    if visibility == Some(false) {
        (darkened(r), darkened(g), darkened(b), 255u8)
    } else {
        (r, g, b, 255u8)
    }
}

/// Whether pixel `(x, y)` lies on the viewer's dot centred at `(ox, oy)`.
pub open spec fn in_origin_marker(ox: int, oy: int, x: int, y: int) -> bool {
    let dx = x - ox;
    let dy = y - oy;
    let r = ORIGIN_MARKER_RADIUS as int;
    &&& -r <= dx <= r
    &&& -r <= dy <= r
    &&& dx * dx + dy * dy <= r * r
}

/// The shaded map pixel at `(x, y)`, from row-major band and visibility data.
pub open spec fn shaded_at(
    width: u32,
    red: Seq<u8>,
    green: Seq<u8>,
    blue: Seq<u8>,
    visibility: Seq<Option<bool>>,
    x: u32,
    y: u32,
) -> (u8, u8, u8, u8) {
    let i = row_major(width as int, x as int, y as int);
    shaded_pixel(red[i], green[i], blue[i], visibility[i])
}

/// The highlighted map: every pixel shaded by visibility, then the viewer's
/// dot drawn over it.
pub open spec fn highlighted_pixels(
    width: u32,
    height: u32,
    red: Seq<u8>,
    green: Seq<u8>,
    blue: Seq<u8>,
    visibility: Seq<Option<bool>>,
    origin_x: int,
    origin_y: int,
) -> Map<(u32, u32), (u8, u8, u8, u8)> {
    Map::new(
        |p: (u32, u32)| p.0 < width && p.1 < height,
        |p: (u32, u32)|
            if in_origin_marker(origin_x, origin_y, p.0 as int, p.1 as int) {
                marker_pixel()
            } else {
                shaded_at(width, red, green, blue, visibility, p.0, p.1)
            },
    )
}

/// Scales a channel value to three fifths, rounding to the nearest integer.
pub fn darken_channel(c: u8) -> (d: u8)
    ensures
        d == darkened(c),
{
    let scaled: u16 = (c as u16) * 6 + 5;
    (scaled / 10) as u8
}

impl HighlighterService {
    /// A highlighter that rasterizes maps at `image_dpi` dots per inch.
    pub fn new(image_dpi: u32) -> (s: Self)
        ensures
            s.dpi() == image_dpi,
    {
        HighlighterService { image_dpi }
    }

    /// The resolution at which maps are rasterized.
    pub closed spec fn dpi(&self) -> u32 {
        self.image_dpi
    }

    /// The resolution at which maps are rasterized, in dots per inch.
    pub fn image_dpi(&self) -> (d: u32)
        ensures
            d == self.dpi(),
    {
        self.image_dpi
    }

    /// Builds the highlighted map from the map's red, green and blue bands
    /// and the visibility of each pixel (all row-major, `width` x `height`):
    /// pixels known to be hidden are darkened, and a red dot of radius
    /// `ORIGIN_MARKER_RADIUS` is drawn around the viewer's pixel
    /// `(origin_x, origin_y)`, clipped to the image. The result is the
    /// image's row-major RGBA sample buffer, four bytes per pixel.
    pub fn compose_highlight(
        &self,
        width: u32,
        height: u32,
        red: &Vec<u8>,
        green: &Vec<u8>,
        blue: &Vec<u8>,
        visibility: &Vec<Option<bool>>,
        origin_x: isize,
        origin_y: isize,
    ) -> (rgba: Vec<u8>)
        requires
            4 * (width as int) * (height as int) <= isize::MAX,
            red@.len() == (width as int) * (height as int),
            green@.len() == (width as int) * (height as int),
            blue@.len() == (width as int) * (height as int),
            visibility@.len() == (width as int) * (height as int),
        ensures
            rgba_bytes_match(
                highlighted_pixels(
                    width,
                    height,
                    red@,
                    green@,
                    blue@,
                    visibility@,
                    origin_x as int,
                    origin_y as int,
                ),
                width,
                height,
                rgba@,
            ),
    {
        proof {
            assert((width as int) * (height as int) <= isize::MAX) by (nonlinear_arith)
                requires
                    4 * (width as int) * (height as int) <= isize::MAX,
            ;
        }
        let mut img = HighlightImage::new(width, height);
        let ghost rs = red@;
        let ghost gs = green@;
        let ghost bs = blue@;
        let ghost vs = visibility@;
        let mut col: u32 = 0;
        while col < width
            invariant
                col <= width,
                (width as int) * (height as int) <= isize::MAX,
                rs == red@,
                gs == green@,
                bs == blue@,
                vs == visibility@,
                rs.len() == (width as int) * (height as int),
                gs.len() == (width as int) * (height as int),
                bs.len() == (width as int) * (height as int),
                vs.len() == (width as int) * (height as int),
                rgba_size(img) == (width, height),
                rgba_pixels(img) == Map::new(
                    |p: (u32, u32)| p.0 < width && p.1 < height,
                    |p: (u32, u32)|
                        if p.0 < col {
                            shaded_at(width, rs, gs, bs, vs, p.0, p.1)
                        } else {
                            (0u8, 0u8, 0u8, 0u8)
                        },
                ),
            decreases width - col,
        {
            let mut row: u32 = 0;
            while row < height
                invariant
                    col < width,
                    row <= height,
                    (width as int) * (height as int) <= isize::MAX,
                    rs == red@,
                    gs == green@,
                    bs == blue@,
                    vs == visibility@,
                    rs.len() == (width as int) * (height as int),
                    gs.len() == (width as int) * (height as int),
                    bs.len() == (width as int) * (height as int),
                    vs.len() == (width as int) * (height as int),
                    rgba_size(img) == (width, height),
                    rgba_pixels(img) == Map::new(
                        |p: (u32, u32)| p.0 < width && p.1 < height,
                        |p: (u32, u32)|
                            if p.0 < col || (p.0 == col && p.1 < row) {
                                shaded_at(width, rs, gs, bs, vs, p.0, p.1)
                            } else {
                                (0u8, 0u8, 0u8, 0u8)
                            },
                    ),
                decreases height - row,
            {
                proof {
                    lemma_row_major_in_bounds(width as int, height as int, col as int, row as int);
                }
                let i: usize = row as usize * width as usize + col as usize;
                let pixel = match visibility[i] {
                    Some(false) => (
                        darken_channel(red[i]),
                        darken_channel(green[i]),
                        darken_channel(blue[i]),
                        255u8,
                    ),
                    _ => (red[i], green[i], blue[i], 255u8),
                };
                let ghost before = rgba_pixels(img);
                img.put_pixel(col, row, pixel);
                proof {
                    assert(pixel == shaded_at(width, rs, gs, bs, vs, col, row));
                    assert(rgba_pixels(img) =~= Map::new(
                        |p: (u32, u32)| p.0 < width && p.1 < height,
                        |p: (u32, u32)|
                            if p.0 < col || (p.0 == col && p.1 < row + 1) {
                                shaded_at(width, rs, gs, bs, vs, p.0, p.1)
                            } else {
                                (0u8, 0u8, 0u8, 0u8)
                            },
                    ));
                }
                row = row + 1;
            }
            proof {
                assert(rgba_pixels(img) =~= Map::new(
                    |p: (u32, u32)| p.0 < width && p.1 < height,
                    |p: (u32, u32)|
                        if p.0 < col + 1 {
                            shaded_at(width, rs, gs, bs, vs, p.0, p.1)
                        } else {
                            (0u8, 0u8, 0u8, 0u8)
                        },
                ));
            }
            col = col + 1;
        }
        let ghost base = |p: (u32, u32)| shaded_at(width, rs, gs, bs, vs, p.0, p.1);
        proof {
            assert(rgba_pixels(img) =~= Map::new(
                |p: (u32, u32)| p.0 < width && p.1 < height,
                |p: (u32, u32)| base(p),
            ));
        }
        mark_origin(&mut img, width, height, origin_x, origin_y, Ghost(base));
        proof {
            assert(rgba_pixels(img) =~= highlighted_pixels(
                width,
                height,
                rs,
                gs,
                bs,
                vs,
                origin_x as int,
                origin_y as int,
            ));
        }
        img.into_raw()
    }
}

/// Draws the viewer's dot, clipped to the image, over an image whose pixels
/// are given by `base`.
fn mark_origin(
    img: &mut HighlightImage,
    width: u32,
    height: u32,
    origin_x: isize,
    origin_y: isize,
    Ghost(base): Ghost<spec_fn((u32, u32)) -> (u8, u8, u8, u8)>,
)
    requires
        rgba_size(*old(img)) == (width, height),
        rgba_pixels(*old(img)) == Map::new(
            |p: (u32, u32)| p.0 < width && p.1 < height,
            |p: (u32, u32)| base(p),
        ),
    ensures
        rgba_size(*final(img)) == (width, height),
        rgba_pixels(*final(img)) == Map::new(
            |p: (u32, u32)| p.0 < width && p.1 < height,
            |p: (u32, u32)|
                if in_origin_marker(origin_x as int, origin_y as int, p.0 as int, p.1 as int) {
                    marker_pixel()
                } else {
                    base(p)
                },
        ),
{
    let r: i32 = ORIGIN_MARKER_RADIUS;
    let ox: i128 = origin_x as i128;
    let oy: i128 = origin_y as i128;
    let mut dy: i32 = -r;
    while dy <= r
        invariant
            r == ORIGIN_MARKER_RADIUS,
            r == 10,
            -r <= dy <= r + 1,
            ox == origin_x as int,
            oy == origin_y as int,
            rgba_size(*img) == (width, height),
            rgba_pixels(*img) == Map::new(
                |p: (u32, u32)| p.0 < width && p.1 < height,
                |p: (u32, u32)|
                    if in_origin_marker(ox as int, oy as int, p.0 as int, p.1 as int) && p.1 - oy
                        < dy {
                        marker_pixel()
                    } else {
                        base(p)
                    },
            ),
        decreases r + 1 - dy,
    {
        let mut dx: i32 = -r;
        while dx <= r
            invariant
                r == ORIGIN_MARKER_RADIUS,
                r == 10,
                -r <= dy <= r,
                -r <= dx <= r + 1,
                ox == origin_x as int,
                oy == origin_y as int,
                rgba_size(*img) == (width, height),
                rgba_pixels(*img) == Map::new(
                    |p: (u32, u32)| p.0 < width && p.1 < height,
                    |p: (u32, u32)|
                        if in_origin_marker(ox as int, oy as int, p.0 as int, p.1 as int) && (p.1
                            - oy < dy || (p.1 - oy == dy && p.0 - ox < dx)) {
                            marker_pixel()
                        } else {
                            base(p)
                        },
                ),
            decreases r + 1 - dx,
        {
            proof {
                assert(0 <= dx * dx <= 100 && 0 <= dy * dy <= 100) by (nonlinear_arith)
                    requires
                        -10 <= dx <= 10,
                        -10 <= dy <= 10,
                ;
            }
            if dx * dx + dy * dy <= r * r {
                let x: i128 = ox + dx as i128;
                let y: i128 = oy + dy as i128;
                if x >= 0 && x < width as i128 && y >= 0 && y < height as i128 {
                    let xu: u32 = x as u32;
                    let yu: u32 = y as u32;
                    img.put_pixel(xu, yu, (255u8, 0u8, 0u8, 255u8));
                }
            }
            proof {
                assert(rgba_pixels(*img) =~= Map::new(
                    |p: (u32, u32)| p.0 < width && p.1 < height,
                    |p: (u32, u32)|
                        if in_origin_marker(ox as int, oy as int, p.0 as int, p.1 as int) && (p.1
                            - oy < dy || (p.1 - oy == dy && p.0 - ox < dx + 1)) {
                            marker_pixel()
                        } else {
                            base(p)
                        },
                ));
            }
            dx = dx + 1;
        }
        proof {
            assert(rgba_pixels(*img) =~= Map::new(
                |p: (u32, u32)| p.0 < width && p.1 < height,
                |p: (u32, u32)|
                    if in_origin_marker(ox as int, oy as int, p.0 as int, p.1 as int) && p.1 - oy
                        < dy + 1 {
                        marker_pixel()
                    } else {
                        base(p)
                    },
            ));
        }
        dy = dy + 1;
    }
    proof {
        assert(rgba_pixels(*img) =~= Map::new(
            |p: (u32, u32)| p.0 < width && p.1 < height,
            |p: (u32, u32)|
                if in_origin_marker(origin_x as int, origin_y as int, p.0 as int, p.1 as int) {
                    marker_pixel()
                } else {
                    base(p)
                },
        ));
    }
}

/// Darkening never brightens a channel, and it keeps the order of channel
/// values, so shading preserves the relative brightness of hidden terrain.
pub proof fn lemma_darkening_is_monotone_and_never_brightens(c1: u8, c2: u8)
    ensures
        darkened(c1) <= c1,
        c1 <= c2 ==> darkened(c1) <= darkened(c2),
{
}

/// The highlighted map covers exactly the `width` x `height` pixels. A pixel
/// within distance 10 of the viewer's pixel is opaque red; every other pixel
/// shows the map's band colour at its row-major position, darkened to the
/// nearest integer of three fifths exactly when its terrain is known to be
/// hidden, and is opaque.
pub proof fn lemma_highlight_pixel_by_pixel(
    width: u32,
    height: u32,
    red: Seq<u8>,
    green: Seq<u8>,
    blue: Seq<u8>,
    visibility: Seq<Option<bool>>,
    origin_x: int,
    origin_y: int,
    x: u32,
    y: u32,
)
    ensures
        highlighted_pixels(
            width,
            height,
            red,
            green,
            blue,
            visibility,
            origin_x,
            origin_y,
        ).dom().contains((x, y)) <==> (x < width && y < height),
        x < width && y < height ==> ({
            let i = (y as int) * (width as int) + (x as int);
            let dx = x - origin_x;
            let dy = y - origin_y;
            let px = highlighted_pixels(
                width,
                height,
                red,
                green,
                blue,
                visibility,
                origin_x,
                origin_y,
            )[(x, y)];
            if dx * dx + dy * dy <= 100 {
                px == (255u8, 0u8, 0u8, 255u8)
            } else if visibility[i] == Some(false) {
                &&& px.0 as int == (6 * (red[i] as int) + 5) / 10
                &&& px.1 as int == (6 * (green[i] as int) + 5) / 10
                &&& px.2 as int == (6 * (blue[i] as int) + 5) / 10
                &&& px.3 == 255u8
            } else {
                px == (red[i], green[i], blue[i], 255u8)
            }
        }),
{
    let dx = x - origin_x;
    let dy = y - origin_y;
    if dx * dx + dy * dy <= 100 {
        assert(-10 <= dx <= 10 && -10 <= dy <= 10) by (nonlinear_arith)
            requires
                dx * dx + dy * dy <= 100,
        ;
    }
}

/// When the viewer's pixel lies inside the map, the highlighted map shows it
/// in the marker colour, whatever the terrain's visibility there.
pub proof fn lemma_viewer_pixel_is_marked(
    width: u32,
    height: u32,
    red: Seq<u8>,
    green: Seq<u8>,
    blue: Seq<u8>,
    visibility: Seq<Option<bool>>,
    origin_x: u32,
    origin_y: u32,
)
    requires
        origin_x < width,
        origin_y < height,
    ensures
        highlighted_pixels(
            width,
            height,
            red,
            green,
            blue,
            visibility,
            origin_x as int,
            origin_y as int,
        )[(origin_x, origin_y)] == marker_pixel(),
{
}

impl Default for HighlighterService {
    /// A highlighter that rasterizes maps at 200 dots per inch.
    fn default() -> (s: Self)
        ensures
            s.dpi() == 200,
    {
        HighlighterService { image_dpi: 200 }
    }
}

} // verus!
