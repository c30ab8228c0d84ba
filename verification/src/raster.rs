//! The RGBA image buffer of the `image` crate, as the highlighter draws on it.
use image::RgbaImage;
use vstd::prelude::*;

verus! {

/// An RGBA image held in an `image::RgbaImage`.
#[verifier::external_body]
pub struct HighlightImage {
    image: RgbaImage,
}

/// The pixels of an image: the domain is the set of in-bounds `(x, y)`
/// coordinates, and each maps to the pixel's `(red, green, blue, alpha)`.
pub uninterp spec fn rgba_pixels(img: HighlightImage) -> Map<(u32, u32), (u8, u8, u8, u8)>;

/// The `(width, height)` an image was created with.
pub uninterp spec fn rgba_size(img: HighlightImage) -> (u32, u32);

/// An image of the given size whose pixels are all `(0, 0, 0, 0)`.
pub open spec fn blank_pixels(width: u32, height: u32) -> Map<(u32, u32), (u8, u8, u8, u8)> {
    Map::new(|p: (u32, u32)| p.0 < width && p.1 < height, |p: (u32, u32)| (0u8, 0u8, 0u8, 0u8))
}

/// The raw bytes of an image with the given pixels and width: four bytes per
/// pixel, rows one after the other from the top.
pub open spec fn rgba_bytes_match(
    pixels: Map<(u32, u32), (u8, u8, u8, u8)>,
    width: u32,
    height: u32,
    bytes: Seq<u8>,
) -> bool {
    &&& bytes.len() == 4 * (width as int) * (height as int)
    &&& forall|x: u32, y: u32|
        x < width && y < height ==> {
            let i = 4 * ((y as int) * (width as int) + (x as int));
            let px = #[trigger] pixels[(x, y)];
            &&& bytes[i] == px.0
            &&& bytes[i + 1] == px.1
            &&& bytes[i + 2] == px.2
            &&& bytes[i + 3] == px.3
        }
}

impl HighlightImage {
    /// `ImageBuffer::new`: an image of `width` x `height` pixels, every
    /// channel zero. It panics when four bytes per pixel do not fit in a
    /// vector, which `requires` rules out.
    #[verifier::external_body]
    pub(crate) fn new(width: u32, height: u32) -> (img: HighlightImage)
        requires
            4 * (width as int) * (height as int) <= isize::MAX,
        ensures
            rgba_size(img) == (width, height),
            rgba_pixels(img) == blank_pixels(width, height),
    {
        HighlightImage { image: RgbaImage::new(width, height) }
    }

    /// `ImageBuffer::put_pixel` with an `Rgba` pixel: sets the pixel at
    /// `(x, y)` and leaves every other pixel and the size unchanged. It panics
    /// outside the image, which `requires` rules out.
    #[verifier::external_body]
    pub(crate) fn put_pixel(&mut self, x: u32, y: u32, pixel: (u8, u8, u8, u8))
        requires
            rgba_pixels(*old(self)).dom().contains((x, y)),
        ensures
            rgba_size(*final(self)) == rgba_size(*old(self)),
            rgba_pixels(*final(self)) == rgba_pixels(*old(self)).insert((x, y), pixel),
    {
        self.image.put_pixel(x, y, image::Rgba([pixel.0, pixel.1, pixel.2, pixel.3]));
    }

    /// `ImageBuffer::into_raw`: the image's sample buffer, row-major, four
    /// bytes (red, green, blue, alpha) per pixel.
    #[verifier::external_body]
    pub(crate) fn into_raw(self) -> (r: Vec<u8>)
        ensures
            rgba_bytes_match(rgba_pixels(self), rgba_size(self).0, rgba_size(self).1, r@),
    {
        self.image.into_raw()
    }
}

} // verus!
