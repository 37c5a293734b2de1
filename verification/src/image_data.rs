//! Bitmaps with eight bits per channel.

use vstd::prelude::*;

verus! {

/// A bitmap with red, green, blue and alpha in each pixel, row after row from
/// the top.
#[derive(Debug, PartialEq)]
pub struct RgbaImage {
    pub width: u32,
    pub height: u32,
    pub data: Vec<u8>,
}

/// A bitmap with red, green and blue in each pixel, row after row from the top.
#[derive(Debug, PartialEq)]
pub struct RgbImage {
    pub width: u32,
    pub height: u32,
    pub data: Vec<u8>,
}

/// A buffer of `len` bytes has four for each pixel, and the length of a row fits
/// in `usize`.
pub open spec fn enough_bytes(width: u32, height: u32, len: int) -> bool {
    width * 4 <= usize::MAX && width * height * 4 <= len
}

/// The bytes of `count` pixels of the same color.
pub open spec fn repeated_pixel(count: int, pixel: Seq<u8>) -> Seq<u8> {
    Seq::new((count * pixel.len()) as nat, |k: int| pixel[k % pixel.len() as int])
}

/// The bytes of a bitmap after the alpha byte of each pixel is left out.
pub open spec fn without_alpha(rgba: Seq<u8>) -> Seq<u8> {
    Seq::new((rgba.len() / 4 * 3) as nat, |k: int| rgba[k / 3 * 4 + k % 3])
}

/// Calls `image::RgbaImage::from_vec` and hands the bytes out again with
/// `into_raw`. The image is made exactly if the buffer holds at least four
/// bytes for each pixel, and it keeps the buffer as it is. The length of a row
/// must fit in `usize` too, which tells only where the image has no rows.
#[verifier::external_body]
fn image_from_vec(width: u32, height: u32, data: Vec<u8>) -> (raw: Option<Vec<u8>>)
    ensures
        raw is Some <==> enough_bytes(width, height, data@.len() as int),
        raw matches Some(bytes) ==> bytes@ == data@,
{
    image::RgbaImage::from_vec(width, height, data).map(image::RgbaImage::into_raw)
}

/// Calls `image::RgbaImage::from_pixel` and hands the bytes out with
/// `into_raw`. They are the four bytes of the pixel, once for each pixel of the
/// image. The call panics where a vector of that many bytes cannot exist.
#[verifier::external_body]
fn image_from_pixel(width: u32, height: u32, pixel: [u8; 4]) -> (raw: Vec<u8>)
    requires
        width * 4 <= usize::MAX,
        width * height * 4 <= isize::MAX,
    ensures
        raw@ == repeated_pixel(width * height, pixel@),
{
    image::RgbaImage::from_pixel(width, height, image::Rgba(pixel)).into_raw()
}

/// Calls `image::DynamicImage::to_rgb8` on an RGBA image of eight bits per
/// channel and hands the bytes out with `into_raw`. They are those of the image
/// without the alpha bytes. The length of a row must fit in `usize`, or the
/// image cannot be made.
#[verifier::external_body]
fn image_to_rgb8(width: u32, height: u32, data: &[u8]) -> (raw: Vec<u8>)
    requires
        width * 4 <= usize::MAX,
        width * height * 4 == data@.len(),
    ensures
        raw@ == without_alpha(data@),
{
    let rgba = image::RgbaImage::from_vec(width, height, data.to_vec());
    image::DynamicImage::ImageRgba8(rgba.unwrap()).to_rgb8().into_raw()
}

impl RgbaImage {
    /// The buffer holds four bytes for each pixel, and the length of a row fits
    /// in `usize`.
    pub open spec fn wf(self) -> bool {
        &&& self.data@.len() == self.width * self.height * 4
        &&& self.width * 4 <= usize::MAX
    }

    /// Makes an image of the bytes of its pixels. There must be enough of them.
    pub fn from_vec(width: u32, height: u32, data: Vec<u8>) -> (image: Option<RgbaImage>)
        ensures
            image is Some <==> enough_bytes(width, height, data@.len() as int),
            image matches Some(i) ==> i.width == width && i.height == height && i.data@ == data@,
    {
        match image_from_vec(width, height, data) {
            Some(data) => Some(RgbaImage { width, height, data }),
            None => None,
        }
    }

    /// Makes an image all of whose pixels are the same.
    pub fn from_pixel(width: u32, height: u32, pixel: [u8; 4]) -> (image: RgbaImage)
        requires
            width * 4 <= usize::MAX,
            width * height * 4 <= isize::MAX,
        ensures
            image.wf(),
            image.width == width,
            image.height == height,
            image.data@ == repeated_pixel(width * height, pixel@),
    {
        let data = image_from_pixel(width, height, pixel);
        proof {
            assert(width * height >= 0) by (nonlinear_arith)
                requires
                    width >= 0,
                    height >= 0,
            ;
        }
        RgbaImage { width, height, data }
    }

    /// Leaves the transparency out.
    pub fn to_rgb8(&self) -> (image: RgbImage)
        requires
            self.wf(),
        ensures
            image.wf(),
            image.width == self.width,
            image.height == self.height,
            image.data@ == without_alpha(self.data@),
    {
        let data = image_to_rgb8(self.width, self.height, self.data.as_slice());
        RgbImage { width: self.width, height: self.height, data }
    }
}

impl RgbImage {
    /// The buffer holds three bytes for each pixel.
    pub open spec fn wf(self) -> bool {
        self.data@.len() == self.width * self.height * 3
    }
}

/// An image without transparency has the same pixels as the image that it was made
/// of, in the same places, each with its red, green and blue.
pub proof fn law_pixels_keep_their_colors(rgba: Seq<u8>, pixel: int, channel: int)
    requires
        0 <= pixel < rgba.len() / 4,
        0 <= channel < 3,
    ensures
        without_alpha(rgba).len() == rgba.len() / 4 * 3,
        without_alpha(rgba)[pixel * 3 + channel] == rgba[pixel * 4 + channel],
{
    vstd::arithmetic::div_mod::lemma_fundamental_div_mod_converse(
        pixel * 3 + channel,
        3,
        pixel,
        channel,
    );
}

/// Every pixel of an image of one color has that color.
pub proof fn law_every_pixel_has_the_color(count: int, color: Seq<u8>, pixel: int, channel: int)
    requires
        color.len() == 4,
        0 <= pixel < count,
        0 <= channel < 4,
    ensures
        repeated_pixel(count, color).len() == count * 4,
        repeated_pixel(count, color)[pixel * 4 + channel] == color[channel],
{
    vstd::arithmetic::div_mod::lemma_fundamental_div_mod_converse(
        pixel * 4 + channel,
        4,
        pixel,
        channel,
    );
}

/// An image is made of four bytes for each pixel. More of them do no harm, and
/// fewer are not enough.
pub proof fn law_a_pixel_takes_four_bytes(width: u32, height: u32, len: int)
    requires
        width * 4 <= usize::MAX,
    ensures
        len >= width * height * 4 <==> enough_bytes(width, height, len),
{
}

/// A bitmap is complete: it has four bytes for each pixel, or three where there is
/// no transparency.
pub proof fn law_bitmaps_are_complete(rgba: RgbaImage, rgb: RgbImage)
    requires
        rgba.width * 4 <= usize::MAX,
    ensures
        rgba.wf() <==> rgba.data@.len() == rgba.width * rgba.height * 4,
        rgb.wf() <==> rgb.data@.len() == rgb.width * rgb.height * 3,
{
}

} // verus!
