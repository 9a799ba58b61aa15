//! Thumbnails: the size that fits a target box, and the scaled image.

use vstd::prelude::*;
use crate::error::{DecodeError, DecodeErrorView, DecodeStage};
use crate::pixels::{PixelBuffer, PixelsView};

verus! {

/// The larger of two dimensions.
pub open spec fn longest_side(width: nat, height: nat) -> nat {
    if width >= height {
        width
    } else {
        height
    }
}

/// The size of an image of `width` by `height` pixels scaled to fit a square
/// box of `size` pixels. The scale is `size` over the longer side, which is
/// the smaller of `size / width` and `size / height`; both dimensions are
/// rounded down. An image without a longer side stays empty.
pub open spec fn fitted_size(width: nat, height: nat, size: nat) -> (nat, nat) {
    let longest = longest_side(width, height);
    if longest == 0 {
        (0, 0)
    } else {
        ((width * size / longest) as nat, (height * size / longest) as nat)
    }
}

/// One dimension of the fitted size: `side * size / longest`, rounded down.
fn scale_side(side: u32, size: u32, longest: u32) -> (r: u32)
    requires
        0 < longest,
        side <= longest,
    ensures
        r == side * size / (longest as int),
        r <= size,
{
    assert(side * size <= 0xFFFF_FFFF * 0xFFFF_FFFF) by (nonlinear_arith)
        requires
            side <= 0xFFFF_FFFF,
            size <= 0xFFFF_FFFF,
    ;
    let scaled: u64 = (side as u64 * size as u64) / (longest as u64);
    assert(side * size / (longest as int) <= size) by (nonlinear_arith)
        requires
            0 < longest,
            0 <= side <= longest,
            0 <= size,
    ;
    scaled as u32
}

/// The size of the thumbnail of an image of `width` by `height` pixels for a
/// box of `size` pixels.
pub fn fit_size(width: u32, height: u32, size: u32) -> (r: (u32, u32))
    ensures
        (r.0 as nat, r.1 as nat) == fitted_size(width as nat, height as nat, size as nat),
{
    let longest = if width >= height {
        width
    } else {
        height
    };
    if longest == 0 {
        (0, 0)
    } else {
        (scale_side(width, size, longest), scale_side(height, size, longest))
    }
}

/// The longer side of a thumbnail is the size of the box, unless the image
/// is empty; no side is longer than the box.
pub proof fn lemma_fitted_longest_side(width: nat, height: nat, size: nat)
    ensures
        longest_side(width, height) > 0 ==> longest_side(
            fitted_size(width, height, size).0,
            fitted_size(width, height, size).1,
        ) == size,
        fitted_size(width, height, size).0 <= size,
        fitted_size(width, height, size).1 <= size,
{
    let longest = longest_side(width, height);
    if longest > 0 {
        assert(longest * size / longest == size) by (nonlinear_arith)
            requires
                longest > 0,
        ;
        assert(width * size / longest <= size) by (nonlinear_arith)
            requires
                0 < longest,
                width <= longest,
        ;
        assert(height * size / longest <= size) by (nonlinear_arith)
            requires
                0 < longest,
                height <= longest,
        ;
    }
}

/// A thumbnail keeps the proportions of the image to within one pixel: the
/// shorter side is the exact proportional length rounded down.
pub proof fn lemma_fitted_proportions(width: nat, height: nat, size: nat)
    requires
        longest_side(width, height) > 0,
    ensures
        ({
            let (w, h) = fitted_size(width, height, size);
            let longest = longest_side(width, height);
            &&& w * longest <= width * size < (w + 1) * longest
            &&& h * longest <= height * size < (h + 1) * longest
        }),
{
    let longest = longest_side(width, height);
    let (w, h) = fitted_size(width, height, size);
    assert(w * longest <= width * size < (w + 1) * longest) by (nonlinear_arith)
        requires
            longest > 0,
            w == width * size / longest,
            width * size >= 0,
    ;
    assert(h * longest <= height * size < (h + 1) * longest) by (nonlinear_arith)
        requires
            longest > 0,
            h == height * size / longest,
            height * size >= 0,
    ;
}

/// The samples that `image::imageops::thumbnail` computes for an RGBA image
/// with the samples `data` and the dimensions `width` by `height`, scaled to
/// `new_width` by `new_height`.
pub uninterp spec fn thumbnail_samples(
    data: Seq<u8>,
    width: nat,
    height: nat,
    new_width: nat,
    new_height: nat,
) -> Seq<u8>;

/// The largest side for which single precision holds every pixel position
/// exactly: 2^24.
pub const EXACT_SIDE: u32 = 0x100_0000;

/// The most source pixels that one pixel of the scaled image may average:
/// 2^24. With samples of at most 255 their sum, and the half of their number
/// that is added for rounding, stay below 2^32.
pub const BLOCK_LIMIT: u32 = 0x100_0000;

/// The smaller of two numbers.
pub open spec fn smaller(a: nat, b: nat) -> nat {
    if a <= b {
        a
    } else {
        b
    }
}

/// The quotient of `side` by `new_side`, rounded up.
pub open spec fn ratio_up(side: nat, new_side: nat) -> nat
    recommends
        new_side > 0,
{
    if side % new_side == 0 {
        side / new_side
    } else {
        side / new_side + 1
    }
}

/// A bound on the number of source pixels along one side that are averaged
/// into one pixel of the scaled image.
///
/// The scaling takes, for the pixel at place `i`, the source pixels from
/// `i * ratio` rounded up to `i * ratio + ratio` rounded up, within the
/// image, where `ratio` is `side / new_side` in single precision. For a side
/// below 2^24 every whole number in reach is held exactly, so there are no
/// more of them than the quotient rounded up. For a longer side the ratio
/// may come out too large by up to 4 and the sum by up to 128, which with
/// the rounding up makes 133. There are never more than the image has.
pub open spec fn block_side(side: nat, new_side: nat) -> nat
    recommends
        new_side > 0,
{
    if side < EXACT_SIDE {
        smaller(side, ratio_up(side, new_side))
    } else {
        smaller(side, ratio_up(side, new_side) + 133)
    }
}

/// The limits within which scaling an image of `width` by `height` pixels
/// to `new_width` by `new_height` is known to succeed: the scaled image has
/// a length that a vector can have, and no pixel of it averages more than
/// `BLOCK_LIMIT` source pixels. Beyond them the sums of the samples may
/// overflow, and scaling is not attempted.
pub open spec fn within_limits(width: nat, height: nat, new_width: nat, new_height: nat) -> bool {
    &&& 4 * new_width * new_height <= isize::MAX
    &&& new_width == 0 || new_height == 0 || block_side(width, new_width) * block_side(
        height,
        new_height,
    ) <= BLOCK_LIMIT
}

/// Calls `image::imageops::thumbnail` on the image rebuilt from `data`.
///
/// The call allocates `4 * new_width * new_height` samples and fills each
/// pixel from a block of source pixels inside the image, whose samples it
/// sums in 32 bits. `block_side` bounds the sides of every block, so within
/// the limits neither step can fail. The result is a function of the
/// arguments alone and has exactly the samples of the new dimensions.
#[verifier::external_body]
fn resample(data: Vec<u8>, width: u32, height: u32, new_width: u32, new_height: u32) -> (out: Vec<
    u8,
>)
    requires
        data@.len() == 4 * width * height,
        within_limits(width as nat, height as nat, new_width as nat, new_height as nat),
    ensures
        out@ == thumbnail_samples(
            data@,
            width as nat,
            height as nat,
            new_width as nat,
            new_height as nat,
        ),
        out@.len() == 4 * new_width * new_height,
{
    let source = image::RgbaImage::from_raw(width, height, data).unwrap();
    image::imageops::thumbnail(&source, new_width, new_height).into_raw()
}

/// The bound `block_side` for one side.
fn block_bound(side: u32, new_side: u32) -> (r: u64)
    requires
        new_side > 0,
    ensures
        r == block_side(side as nat, new_side as nat),
        r <= side,
{
    let quotient: u64 = (side / new_side) as u64;
    let rounded: u64 = if side % new_side == 0 {
        quotient
    } else {
        quotient + 1
    };
    let bound: u64 = if side < EXACT_SIDE {
        rounded
    } else {
        rounded + 133
    };
    if bound < side as u64 {
        bound
    } else {
        side as u64
    }
}

/// Whether the arguments are within the limits of scaling.
fn scale_fits(width: u32, height: u32, new_width: u32, new_height: u32) -> (r: bool)
    ensures
        r == within_limits(width as nat, height as nat, new_width as nat, new_height as nat),
{
    assert(new_width * new_height <= 0xFFFF_FFFF * 0xFFFF_FFFF) by (nonlinear_arith)
        requires
            new_width <= 0xFFFF_FFFF,
            new_height <= 0xFFFF_FFFF,
    ;
    let samples: u128 = 4 * (new_width as u128 * new_height as u128);
    assert(samples == 4 * (new_width as nat) * (new_height as nat)) by (nonlinear_arith)
        requires
            samples == 4 * (new_width * new_height),
    ;
    if samples > isize::MAX as u128 {
        return false;
    }
    if new_width == 0 || new_height == 0 {
        return true;
    }
    let across: u64 = block_bound(width, new_width);
    let down: u64 = block_bound(height, new_height);
    assert(across * down <= 0xFFFF_FFFF * 0xFFFF_FFFF) by (nonlinear_arith)
        requires
            across <= 0xFFFF_FFFF,
            down <= 0xFFFF_FFFF,
    ;
    across * down <= BLOCK_LIMIT as u64
}

/// The text of the error for an image beyond the limits of scaling.
pub open spec fn resize_message() -> Seq<char> {
    "Image cannot be scaled to the thumbnail size"@
}

/// The thumbnail of `image` for a box of `size` pixels: the fitted size, and
/// the samples that scaling to it gives.
pub open spec fn thumbnail_of(image: PixelsView, size: nat) -> PixelsView {
    let (width, height) = fitted_size(image.width, image.height, size);
    PixelsView {
        width,
        height,
        data: thumbnail_samples(image.data, image.width, image.height, width, height),
    }
}

/// Whether scaling `image` to its fitted size for a box of `size` pixels is
/// within the limits.
pub open spec fn thumbnail_within_limits(image: PixelsView, size: nat) -> bool {
    let (width, height) = fitted_size(image.width, image.height, size);
    within_limits(image.width, image.height, width, height)
}

/// An image of no more than `BLOCK_LIMIT` pixels is within the limits for
/// every box whose square fits in memory: whatever the reduction, no block
/// is larger than the image.
pub proof fn lemma_moderate_images_are_within_limits(image: PixelsView, size: nat)
    requires
        image.width * image.height <= BLOCK_LIMIT,
        4 * size * size <= isize::MAX,
    ensures
        thumbnail_within_limits(image, size),
{
    let (width, height) = fitted_size(image.width, image.height, size);
    lemma_fitted_longest_side(image.width, image.height, size);
    assert(4 * width * height <= 4 * size * size) by (nonlinear_arith)
        requires
            width <= size,
            height <= size,
    ;
    if width > 0 && height > 0 {
        let across = block_side(image.width, width);
        let down = block_side(image.height, height);
        assert(across * down <= image.width * image.height) by (nonlinear_arith)
            requires
                across <= image.width,
                down <= image.height,
        ;
    }
}

/// Scales `image` down, or up, to fit a square box of `size` pixels,
/// keeping its proportions. An image beyond the limits of scaling gives a
/// decode error of the resize stage.
pub fn to_thumbnail(image: PixelBuffer, size: u32) -> (r: Result<PixelBuffer, DecodeError>)
    ensures
        r is Ok <==> thumbnail_within_limits(image@, size as nat),
        r is Ok ==> r->Ok_0@ == thumbnail_of(image@, size as nat),
        r is Err ==> r->Err_0@ == (DecodeErrorView {
            stage: DecodeStage::Resize,
            message: resize_message(),
        }),
{
    let (width, height) = image.dimensions();
    let (new_width, new_height) = fit_size(width, height, size);
    if scale_fits(width, height, new_width, new_height) {
        let data = image.into_raw();
        assert(data@.len() == 4 * width * height) by (nonlinear_arith)
            requires
                data@.len() == 4 * (width as nat) * (height as nat),
        ;
        let scaled = resample(data, width, height, new_width, new_height);
        Ok(PixelBuffer::new(new_width, new_height, scaled))
    } else {
        Err(
            DecodeError {
                stage: DecodeStage::Resize,
                message: "Image cannot be scaled to the thumbnail size".to_owned(),
            },
        )
    }
}

} // verus!
