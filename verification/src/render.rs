//! Reading a rendered frame out of a GPU buffer.

use vstd::prelude::*;

use crate::geometry::{Color, PhysicalSize};
use crate::image_data::RgbaImage;

verus! {

/// The number of bytes that the length of a row in a GPU buffer is a multiple
/// of.
pub const ROW_ALIGNMENT: u32 = 256;

/// The smallest multiple of [`ROW_ALIGNMENT`] that is not below `bytes`.
pub open spec fn aligned(bytes: int) -> int {
    (bytes + (ROW_ALIGNMENT - 1)) / ROW_ALIGNMENT as int * ROW_ALIGNMENT
}

/// What there is to do to render a frame.
#[derive(Debug, PartialEq)]
pub enum RenderStep {
    /// Nothing is rendered; this image stands in for the frame.
    Blank(RgbaImage),
    /// Render into a texture and copy that into a buffer.
    Draw(RenderTarget),
}

/// A texture to render into, and the buffer that it is copied to.
#[derive(Clone, Copy, Debug, PartialEq, Eq, Structural)]
pub struct RenderTarget {
    pub width: u32,
    pub height: u32,
    /// The color that everything is painted on.
    pub base_color: Color,
    /// The length of a row in the buffer.
    pub padded_byte_width: u32,
    /// The length of the buffer.
    pub buffer_size: u64,
}

impl RenderTarget {
    /// The row length, the place where each row starts in the buffer and the
    /// number of bytes in the image all fit in `u32`.
    pub open spec fn can_hold(width: u32, height: u32) -> bool {
        &&& aligned(width * 4) <= u32::MAX
        &&& width * height * 4 <= u32::MAX
        &&& height > 0 ==> (height - 1) * aligned(width * 4) <= u32::MAX
    }

    /// The layout follows from the size of the frame.
    pub open spec fn wf(self) -> bool {
        &&& Self::can_hold(self.width, self.height)
        &&& self.padded_byte_width == aligned(self.width * 4)
        &&& self.buffer_size == aligned(self.width * 4) * self.height
    }

    /// The bytes of the frame, taken out of the rows of the buffer one row
    /// after the other and without the padding at the end of each.
    pub open spec fn unpadded(self, data: Seq<u8>) -> Seq<u8> {
        Seq::new(
            (self.width * self.height * 4) as nat,
            |k: int| data[k / (self.width * 4) * self.padded_byte_width + k % (self.width * 4)],
        )
    }

    /// Whether a frame of this size can be read back.
    pub fn fits(size: PhysicalSize) -> (fits: bool)
        ensures
            fits == Self::can_hold(size.width, size.height),
    {
        let width = size.width as u64;
        let height = size.height as u64;
        let padded = padded_length(width * 4);
        if padded > u32::MAX as u64 {
            return false;
        }
        proof {
            assert(width * height <= 0xffff_ffff * 0xffff_ffff) by (nonlinear_arith)
                requires
                    0 <= width <= 0xffff_ffff,
                    0 <= height <= 0xffff_ffff,
            ;
        }
        if width * height > u32::MAX as u64 / 4 {
            return false;
        }
        if height > 0 {
            proof {
                assert((height - 1) * padded <= 0xffff_ffff * 0xffff_ffff) by (nonlinear_arith)
                    requires
                        0 < height <= 0xffff_ffff,
                        0 <= padded <= 0xffff_ffff,
                ;
            }
            (height - 1) * padded <= u32::MAX as u64
        } else {
            true
        }
    }

    /// Lays the buffer for a frame out.
    pub fn new(size: PhysicalSize, base_color: Color) -> (target: Self)
        requires
            Self::can_hold(size.width, size.height),
        ensures
            target.wf(),
            target.width == size.width,
            target.height == size.height,
            target.base_color == base_color,
    {
        let padded = padded_length(size.width as u64 * 4);
        proof {
            let h = size.height as int;
            assert(0 <= padded * h <= 0xffff_ffff * 0xffff_ffff) by (nonlinear_arith)
                requires
                    0 <= h <= 0xffff_ffff,
                    0 <= padded <= 0xffff_ffff,
            ;
        }
        RenderTarget {
            width: size.width,
            height: size.height,
            base_color,
            padded_byte_width: padded as u32,
            buffer_size: padded * size.height as u64,
        }
    }

    /// Makes the image of the contents of the buffer.
    pub fn read_back(&self, data: &[u8]) -> (image: RgbaImage)
        requires
            self.wf(),
            data@.len() >= self.buffer_size,
        ensures
            image.wf(),
            image.width == self.width,
            image.height == self.height,
            image.data@ == self.unpadded(data@),
    {
        let mut result: Vec<u8> = Vec::new();
        let row_length: usize = self.width as usize * 4;
        let mut row: u32 = 0;
        let ghost w = self.width * 4;
        let ghost padded = self.padded_byte_width as int;
        while row < self.height
            invariant
                self.wf(),
                data@.len() >= self.buffer_size,
                row <= self.height,
                w == self.width * 4,
                padded == self.padded_byte_width,
                row_length == w,
                result@.len() == w * row,
                forall|k: int|
                    0 <= k < result@.len() ==> result@[k] == data@[k / w * padded + k % w],
            decreases self.height - row,
        {
            proof {
                lemma_row_in_buffer(*self, row as int);
                assert(data@.len() == data.len() as int);
            }
            let start: usize = (row * self.padded_byte_width) as usize;
            let ghost before = result@;
            let piece = vstd::slice::slice_subrange(data, start, start + row_length);
            result.extend_from_slice(piece);
            proof {
                assert(result@ == before + piece@);
                assert(w * (row + 1) == w * row + w) by (nonlinear_arith);
                assert forall|k: int| 0 <= k < result@.len() implies result@[k] == data@[k / w
                    * padded + k % w] by {
                    if k >= before.len() {
                        let x = k - before.len();
                        assert(k == row * w + x) by (nonlinear_arith)
                            requires
                                k == w * row + x,
                        ;
                        vstd::arithmetic::div_mod::lemma_fundamental_div_mod_converse(
                            k,
                            w,
                            row as int,
                            x,
                        );
                    }
                }
            }
            row = row + 1;
        }
        proof {
            let h = self.height as int;
            assert(w * h == self.width * self.height * 4) by (nonlinear_arith)
                requires
                    w == self.width * 4,
                    h == self.height,
            ;
            assert(result@ == self.unpadded(data@));
        }
        match RgbaImage::from_vec(self.width, self.height, result) {
            Some(image) => image,
            None => vstd::pervasive::unreached(),
        }
    }
}

/// Rounds a length up to a multiple of [`ROW_ALIGNMENT`].
fn padded_length(bytes: u64) -> (padded: u64)
    requires
        bytes <= 0x4_0000_0000,
    ensures
        padded == aligned(bytes as int),
{
    (bytes + (ROW_ALIGNMENT as u64 - 1)) / ROW_ALIGNMENT as u64 * ROW_ALIGNMENT as u64
}

/// A row of the frame lies within the buffer, and its start fits in `u32`.
proof fn lemma_row_in_buffer(target: RenderTarget, row: int)
    requires
        target.wf(),
        0 <= row < target.height,
    ensures
        0 <= row * target.padded_byte_width <= u32::MAX,
        row * target.padded_byte_width + target.width * 4 <= target.buffer_size,
{
    let p = target.padded_byte_width as int;
    let h = target.height as int;
    assert(0 <= row * p <= (h - 1) * p) by (nonlinear_arith)
        requires
            0 <= row <= h - 1,
            p >= 0,
    ;
    assert((h - 1) * p + p == p * h) by (nonlinear_arith);
}

/// The length of a row in a GPU buffer is the smallest multiple of the alignment
/// that holds the pixels of the row.
pub proof fn law_rows_are_aligned(bytes: int, other: int)
    requires
        bytes >= 0,
    ensures
        aligned(bytes) >= bytes,
        aligned(bytes) % 256 == 0,
        other >= bytes && other % 256 == 0 ==> aligned(bytes) <= other,
{
}

/// Each channel of each pixel of a frame is read from its place in the buffer:
/// rows are as far apart as their padded length, pixels four bytes.
pub proof fn law_pixels_are_read_from_their_rows(
    target: RenderTarget,
    data: Seq<u8>,
    x: int,
    y: int,
    channel: int,
)
    requires
        target.wf(),
        0 <= x < target.width,
        0 <= y < target.height,
        0 <= channel < 4,
    ensures
        ({
            let at = (y * target.width + x) * 4 + channel;
            &&& target.unpadded(data).len() == target.width * target.height * 4
            &&& 0 <= at < target.unpadded(data).len()
            &&& target.unpadded(data)[at] == data[y * target.padded_byte_width + x * 4 + channel]
            &&& y * target.padded_byte_width + x * 4 + channel < target.buffer_size
        }),
{
    let w = target.width as int;
    let h = target.height as int;
    let p = target.padded_byte_width as int;
    let at = (y * w + x) * 4 + channel;
    let inner = x * 4 + channel;
    assert(at == y * (w * 4) + inner) by (nonlinear_arith)
        requires
            at == (y * w + x) * 4 + channel,
            inner == x * 4 + channel,
    ;
    vstd::arithmetic::div_mod::lemma_fundamental_div_mod_converse(at, w * 4, y, inner);
    assert(0 <= at < w * h * 4) by (nonlinear_arith)
        requires
            at == y * (w * 4) + inner,
            0 <= inner < w * 4,
            0 <= y <= h - 1,
            w > 0,
    ;
    assert(y * p + p <= p * h) by (nonlinear_arith)
        requires
            0 <= y <= h - 1,
            p >= 0,
    ;
}

/// A frame can be read back exactly if the length of a row, the place where the
/// last row starts and the number of bytes in the image all fit in thirty-two
/// bits, where a row is four bytes for each pixel, rounded up to a multiple of
/// two hundred fifty-six.
pub proof fn law_frames_that_can_be_read_back(width: u32, height: u32, row: int)
    requires
        row % 256 == 0,
        width * 4 <= row < width * 4 + 256,
    ensures
        RenderTarget::can_hold(width, height) <==> (row <= 0xffff_ffff && width * height * 4
            <= 0xffff_ffff && (height > 0 ==> (height - 1) * row <= 0xffff_ffff)),
{
    law_rows_are_aligned(width * 4, row);
    assert(aligned(width * 4) == row);
}

/// The buffer of a frame that can be read back has as many rows as the frame, each
/// as long as the pixels of a row, rounded up to a multiple of two hundred
/// fifty-six.
pub proof fn law_the_buffer_holds_all_rows(target: RenderTarget, row: int)
    requires
        row % 256 == 0,
        target.width * 4 <= row < target.width * 4 + 256,
    ensures
        target.wf() <==> (RenderTarget::can_hold(target.width, target.height)
            && target.padded_byte_width == row && target.buffer_size == row * target.height),
{
    law_rows_are_aligned(target.width * 4, row);
    assert(aligned(target.width * 4) == row);
}

/// The bytes of a frame depend on the pixels in the buffer alone: what is in the
/// padding does not matter.
pub proof fn law_padding_does_not_matter(target: RenderTarget, a: Seq<u8>, b: Seq<u8>)
    requires
        target.wf(),
        forall|y: int, x: int|
            #![trigger a[y * target.padded_byte_width + x]]
            0 <= y < target.height && 0 <= x < target.width * 4 ==> a[y * target.padded_byte_width
                + x] == b[y * target.padded_byte_width + x],
    ensures
        target.unpadded(a) == target.unpadded(b),
{
    let w = target.width * 4;
    let h = target.height as int;
    let p = target.padded_byte_width as int;
    assert forall|k: int| 0 <= k < target.unpadded(a).len() implies target.unpadded(a)[k]
        == target.unpadded(b)[k] by {
        assert(w * h == target.width * h * 4) by (nonlinear_arith)
            requires
                w == target.width * 4,
        ;
        assert(w > 0) by (nonlinear_arith)
            requires
                0 <= k < w * h,
                h >= 0,
                w >= 0,
        ;
        vstd::arithmetic::div_mod::lemma_fundamental_div_mod(k, w);
        let y = k / w;
        assert(0 <= y < h) by (nonlinear_arith)
            requires
                0 <= k < w * h,
                k == w * y + k % w,
                0 <= k % w < w,
        ;
        assert(a[y * p + k % w] == b[y * p + k % w]);
    }
    assert(target.unpadded(a) =~= target.unpadded(b));
}

} // verus!
