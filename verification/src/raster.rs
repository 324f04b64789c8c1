//! RGBA images as plain bytes, and cropping them with the `image` crate.
use vstd::prelude::*;

use crate::screenshots::CropRect;

verus! {

/// What an image holds: its size and its pixels, row by row, four bytes
/// (red, green, blue, alpha) per pixel.
pub struct ImageView {
    pub width: u32,
    pub height: u32,
    pub rgba: Seq<u8>,
}

/// Channel `c` of the pixel at column `x`, row `y`.
pub open spec fn pixel_byte(img: ImageView, x: int, y: int, c: int) -> u8 {
    img.rgba[4 * (y * img.width + x) + c]
}

/// `out` is the part of `src` under `r`.
pub open spec fn is_crop_of(out: ImageView, src: ImageView, r: CropRect) -> bool {
    &&& out.width == r.width
    &&& out.height == r.height
    &&& out.rgba.len() == 4 * (r.width as int) * (r.height as int)
    &&& forall|x: int, y: int, c: int|
        0 <= x < r.width && 0 <= y < r.height && 0 <= c < 4 ==> #[trigger] pixel_byte(out, x, y, c)
            == pixel_byte(src, r.left + x, r.top + y, c)
}

/// An RGBA image held as plain bytes.
pub struct Image {
    width: u32,
    height: u32,
    rgba: Vec<u8>,
}

impl View for Image {
    type V = ImageView;

    closed spec fn view(&self) -> ImageView {
        ImageView { width: self.width, height: self.height, rgba: self.rgba@ }
    }
}

impl Image {
    /// The byte buffer holds exactly four bytes per pixel.
    #[verifier::type_invariant]
    closed spec fn sized(self) -> bool {
        self.rgba@.len() == 4 * (self.width as int) * (self.height as int)
    }

    /// An image of `width` by `height` pixels from its RGBA bytes, row by row;
    /// `None` when the buffer does not hold exactly four bytes per pixel.
    pub fn from_rgba(width: u32, height: u32, rgba: Vec<u8>) -> (r: Option<Image>)
        ensures
            r is Some <==> rgba@.len() == 4 * (width as int) * (height as int),
            r matches Some(img) ==> img@ == (ImageView { width, height, rgba: rgba@ }),
    {
        assert((width as int) * (height as int) <= 0xffff_ffff * 0xffff_ffff) by (nonlinear_arith)
            requires
                width <= 0xffff_ffff,
                height <= 0xffff_ffff,
        ;
        assert(4 * (width as int) * (height as int) == 4 * ((width as int) * (height as int)))
            by (nonlinear_arith);
        let pixels: u128 = (width as u128) * (height as u128);
        if (rgba.len() as u128) == pixels * 4 {
            Some(Image { width, height, rgba })
        } else {
            None
        }
    }

    /// Width in pixels.
    pub fn width(&self) -> (w: u32)
        ensures
            w == self@.width,
    {
        self.width
    }

    /// Height in pixels.
    pub fn height(&self) -> (h: u32)
        ensures
            h == self@.height,
    {
        self.height
    }

    /// The RGBA bytes, row by row.
    pub fn into_rgba(self) -> (v: Vec<u8>)
        ensures
            v@ == self@.rgba,
    {
        self.rgba
    }
}

/// Crops `image` to `r` with `image::imageops::crop_imm` on an
/// `image::RgbaImage` built from its bytes (`ImageBuffer::from_raw`), copying
/// the view out with `SubImage::to_image`, whose buffer `into_raw` hands back.
/// `crop_imm` clamps the rectangle to the image, which the precondition makes
/// a no-op; `to_image` copies pixel `(x, y)` of the view from pixel
/// `(left + x, top + y)` of the source, and image buffers are row-major with
/// four bytes per RGBA pixel.
#[verifier::external_body]
pub(crate) fn crop_rgba(image: &Image, r: CropRect) -> (out: Image)
    requires
        r.left + r.width <= image@.width,
        r.top + r.height <= image@.height,
    ensures
        is_crop_of(out@, image@, r),
{
    let source = image::RgbaImage::from_raw(image.width, image.height, image.rgba.clone()).unwrap();
    let cropped = image::imageops::crop_imm(&source, r.left, r.top, r.width, r.height).to_image();
    let (width, height) = cropped.dimensions();
    Image { width, height, rgba: cropped.into_raw() }
}

} // verus!
