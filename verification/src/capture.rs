//! Reading the screen back.
//!
//! The graphics context hands out the pixels of a rectangle row by row,
//! bottom row first, three bytes to a pixel: red, green, blue, with no
//! padding between rows. A picture has its top row first, so a snapshot is
//! the readback turned upside down.

use vstd::prelude::*;
use vstd::arithmetic::div_mod::{
    lemma_div_pos_is_pos, lemma_fundamental_div_mod, lemma_mod_bound, lemma_multiply_divide_lt,
};
use image::{imageops, ImageBuffer, Rgb};
use crate::window::CustomWindow;

verus! {

/// The bytes of one pixel.
pub const BYTES_PER_PIXEL: usize = 3;

/// A rectangle of the current framebuffer whose pixels are to be read:
/// `width` by `height` pixels, with the lower left corner at `(x, y)`.
#[derive(Clone, Copy, PartialEq, Eq, Debug)]
pub struct ReadPixels {
    pub x: usize,
    pub y: usize,
    pub width: usize,
    pub height: usize,
}

/// A picture of the screen, top row first, three bytes to a pixel.
#[derive(PartialEq, Eq, Debug)]
pub struct Snapshot {
    pub width: u32,
    pub height: u32,
    pub pixels: Vec<u8>,
}

/// A buffer brought to a length: cut where it is longer, filled up with
/// zeros where it is shorter.
pub open spec fn resized(buffer: Seq<u8>, len: nat) -> Seq<u8> {
    if len <= buffer.len() {
        buffer.take(len as int)
    } else {
        buffer + Seq::new((len - buffer.len()) as nat, |i: int| 0u8)
    }
}

/// Where byte `channel` of the pixel in column `x` of row `y` stands in a
/// picture that is `width` pixels wide.
pub open spec fn byte_index(width: int, x: int, y: int, channel: int) -> int {
    (y * width + x) * BYTES_PER_PIXEL + channel
}

/// Whether `flipped` is `pixels` with its rows in the opposite order, for a
/// picture of `width` by `height` pixels.
pub open spec fn is_vertical_flip(
    flipped: Seq<u8>,
    pixels: Seq<u8>,
    width: int,
    height: int,
) -> bool {
    &&& flipped.len() == pixels.len()
    &&& forall|x: int, y: int, channel: int|
        #![trigger byte_index(width, x, y, channel)]
        0 <= x < width && 0 <= y < height && 0 <= channel < BYTES_PER_PIXEL
            ==> flipped[byte_index(width, x, y, channel)] == pixels[byte_index(
            width,
            x,
            height - 1 - y,
            channel,
        )]
}

/// `image::imageops::flip_vertical`, on a picture built from its bytes with
/// `ImageBuffer::from_vec` and taken apart again with `into_raw`. The picture
/// has to have a pixel at least, and the bytes have to be exactly those of
/// `width` by `height` pixels: then every product that the outside crate
/// forms of the two sizes is at most the length of the buffer, and the
/// picture is accepted. The result has as many bytes, and each pixel of its
/// row `y` is the pixel of the same column in row `height - 1 - y` of the
/// argument.
#[verifier::external_body]
fn flip_vertical(width: u32, height: u32, pixels: Vec<u8>) -> (flipped: Vec<u8>)
    requires
        width > 0,
        height > 0,
        pixels@.len() == width * height * BYTES_PER_PIXEL,
    ensures
        is_vertical_flip(flipped@, pixels@, width as int, height as int),
{
    let picture: ImageBuffer<Rgb<u8>, Vec<u8>> = ImageBuffer::from_vec(width, height, pixels)
        .expect("the buffer holds the whole picture");
    imageops::flip_vertical(&picture).into_raw()
}

impl CustomWindow {
    /// Makes `out` ready to take the pixels of a rectangle of the
    /// framebuffer, and says what has to be read into it.
    ///
    /// `out` gets exactly three bytes for each pixel: it is cut where it was
    /// longer and filled up with zeros where it was shorter. The number of
    /// bytes has to fit the machine.
    pub fn snap_rect(
        &self,
        out: &mut Vec<u8>,
        x: usize,
        y: usize,
        width: usize,
        height: usize,
    ) -> (request: ReadPixels)
        requires
            width * height * BYTES_PER_PIXEL <= usize::MAX,
        ensures
            final(out)@ == resized(old(out)@, (width * height * BYTES_PER_PIXEL) as nat),
            final(out)@.len() == width * height * BYTES_PER_PIXEL,
            request == (ReadPixels { x, y, width, height }),
    {
        assert(width * height <= width * height * BYTES_PER_PIXEL) by (nonlinear_arith);
        let size: usize = width * height * BYTES_PER_PIXEL;
        out.resize(size, 0u8);
        ReadPixels { x, y, width, height }
    }

    /// Makes `out` ready to take the pixels of the whole framebuffer, which
    /// is `width` by `height` pixels, and says what has to be read into it.
    pub fn snap(&self, out: &mut Vec<u8>, width: u32, height: u32) -> (request: ReadPixels)
        requires
            width * height * BYTES_PER_PIXEL <= usize::MAX,
        ensures
            final(out)@ == resized(old(out)@, (width * height * BYTES_PER_PIXEL) as nat),
            final(out)@.len() == width * height * BYTES_PER_PIXEL,
            request == (ReadPixels { x: 0, y: 0, width: width as usize, height: height as usize }),
    {
        self.snap_rect(out, 0, 0, width as usize, height as usize)
    }

    /// Turns what was read back from the whole framebuffer, which is `width`
    /// by `height` pixels, into a picture: the same pixels, top row first. A
    /// framebuffer without a pixel gives a picture without a byte.
    pub fn snap_image(&self, width: u32, height: u32, pixels: Vec<u8>) -> (picture: Snapshot)
        requires
            pixels@.len() == width * height * BYTES_PER_PIXEL,
        ensures
            picture.width == width,
            picture.height == height,
            is_vertical_flip(picture.pixels@, pixels@, width as int, height as int),
    {
        if width == 0 || height == 0 {
            assert(width * height * BYTES_PER_PIXEL == 0) by (nonlinear_arith)
                requires
                    width == 0 || height == 0,
            ;
            Snapshot { width, height, pixels }
        } else {
            Snapshot { width, height, pixels: flip_vertical(width, height, pixels) }
        }
    }
}

/// A buffer that has the length asked for is left as it is: reading the
/// screen a second time into the buffer of the first does not disturb it.
pub proof fn lemma_resized_is_idempotent(buffer: Seq<u8>, len: nat)
    ensures
        resized(buffer, len).len() == len,
        resized(resized(buffer, len), len) == resized(buffer, len),
{
}

/// Two captures of one rectangle hold the same bytes, whatever the two
/// buffers held and however long they were before: both are brought to the
/// length of the rectangle, and the readback, which writes every byte of
/// that length, leaves nothing of what was there. Here `first` and `second`
/// are the buffers as they were, `first_read` and `second_read` the buffers
/// after the readback, and `pixels` what the context read both times.
pub proof fn lemma_captures_agree(
    first: Seq<u8>,
    second: Seq<u8>,
    first_read: Seq<u8>,
    second_read: Seq<u8>,
    pixels: Seq<u8>,
)
    requires
        first_read.len() == resized(first, pixels.len()).len(),
        second_read.len() == resized(second, pixels.len()).len(),
        forall|i: int| 0 <= i < pixels.len() ==> first_read[i] == pixels[i],
        forall|i: int| 0 <= i < pixels.len() ==> second_read[i] == pixels[i],
    ensures
        first_read == second_read,
        first_read == pixels,
{
    assert(first_read =~= pixels);
    assert(second_read =~= pixels);
}

/// Turning a picture upside down twice gives the picture back: what is the
/// flip of a picture has that picture as its own flip.
pub proof fn lemma_flip_is_symmetric(flipped: Seq<u8>, pixels: Seq<u8>, width: int, height: int)
    requires
        is_vertical_flip(flipped, pixels, width, height),
    ensures
        is_vertical_flip(pixels, flipped, width, height),
{
}

/// Every byte of a picture is a byte of one of its pixels: a picture has
/// one flip and no other. So one readback gives one snapshot.
pub proof fn lemma_flip_is_unique(
    first: Seq<u8>,
    second: Seq<u8>,
    pixels: Seq<u8>,
    width: int,
    height: int,
)
    requires
        0 <= width,
        0 <= height,
        pixels.len() == width * height * BYTES_PER_PIXEL,
        is_vertical_flip(first, pixels, width, height),
        is_vertical_flip(second, pixels, width, height),
    ensures
        first == second,
{
    assert forall|i: int| 0 <= i < first.len() implies first[i] == second[i] by {
        let pixel = i / 3;
        let channel = i % 3;
        lemma_fundamental_div_mod(i, 3);
        assert(0 <= pixel < width * height) by {
            lemma_div_pos_is_pos(i, 3);
            lemma_multiply_divide_lt(i, 3, width * height);
            assert(3 * (width * height) == width * height * 3) by (nonlinear_arith);
        }
        assert(width > 0) by (nonlinear_arith)
            requires
                0 <= width,
                0 <= height,
                0 < width * height,
        ;
        let x = pixel % width;
        let y = pixel / width;
        lemma_fundamental_div_mod(pixel, width);
        lemma_mod_bound(pixel, width);
        lemma_div_pos_is_pos(pixel, width);
        lemma_multiply_divide_lt(pixel, width, height);
        assert(y * width + x == pixel) by (nonlinear_arith)
            requires
                pixel == width * y + x,
        ;
        assert(byte_index(width, x, y, channel) == i);
        assert(first[byte_index(width, x, y, channel)] == pixels[byte_index(
            width,
            x,
            height - 1 - y,
            channel,
        )]);
        assert(second[byte_index(width, x, y, channel)] == pixels[byte_index(
            width,
            x,
            height - 1 - y,
            channel,
        )]);
    }
}

} // verus!
