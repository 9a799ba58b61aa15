//! Comparing the two halves of an image: cutting the halves out and taking
//! the difference of their colours.

use vstd::prelude::*;
use crate::pixels::{PixelBuffer, PixelsView};

verus! {

/// How an image is shown.
#[derive(Clone, Copy, Debug, PartialEq, Eq, Structural)]
pub enum DiffMode {
    /// The whole image.
    Full,
    /// The left and the right half side by side.
    VSplit,
    /// The colour difference of the left and the right half.
    VColorDiff,
    /// The upper and the lower half, one above the other.
    HSplit,
    /// The colour difference of the upper and the lower half.
    HColorDiff,
}

impl DiffMode {
    /// Whether the mode compares the left half with the right half.
    pub open spec fn halves_width(self) -> bool {
        self == DiffMode::VSplit || self == DiffMode::VColorDiff
    }

    /// Whether the mode compares the upper half with the lower half.
    pub open spec fn halves_height(self) -> bool {
        self == DiffMode::HSplit || self == DiffMode::HColorDiff
    }

    /// Whether the mode shows a colour difference in place of the image.
    pub open spec fn is_color_diff(self) -> bool {
        self == DiffMode::VColorDiff || self == DiffMode::HColorDiff
    }

    /// Whether what is shown is half as wide as the image.
    pub fn need_half_width(self) -> (r: bool)
        ensures
            r == self.halves_width(),
    {
        match self {
            DiffMode::VSplit | DiffMode::VColorDiff => true,
            _ => false,
        }
    }

    /// Whether what is shown is half as high as the image.
    pub fn need_half_height(self) -> (r: bool)
        ensures
            r == self.halves_height(),
    {
        match self {
            DiffMode::HSplit | DiffMode::HColorDiff => true,
            _ => false,
        }
    }

    /// Whether the mode is drawn from the colour difference rather than from
    /// the image itself.
    pub fn shows_color_diff(self) -> (r: bool)
        ensures
            r == self.is_color_diff(),
    {
        match self {
            DiffMode::Full | DiffMode::VSplit | DiffMode::HSplit => false,
            DiffMode::VColorDiff | DiffMode::HColorDiff => true,
        }
    }
}

/// The smaller of two numbers.
pub open spec fn least(a: nat, b: nat) -> nat {
    if a <= b {
        a
    } else {
        b
    }
}

/// The place of a sample in the samples of an image `width` pixels wide: the
/// sample `channel` of the pixel in column `x` of row `y`.
pub open spec fn sample_index(width: nat, x: int, y: int, channel: int) -> int {
    4 * (y * width + x) + channel
}

/// The place in the samples of an image `source_width` pixels wide of the
/// sample that stands at place `i` in a window `width` pixels wide whose top
/// left corner is the pixel in column `x` of row `y`.
pub open spec fn window_index(source_width: nat, x: nat, y: nat, width: nat, i: int) -> int {
    let pixel = i / 4;
    sample_index(source_width, x + pixel % (width as int), y + pixel / (width as int), i % 4)
}

/// The part of `image` that lies in the window of `width` by `height` pixels
/// with its top left corner at column `x` of row `y`. A corner outside the
/// image is moved to its edge, and the window is cut down to what the image
/// has.
pub open spec fn cropped(image: PixelsView, x: nat, y: nat, width: nat, height: nat) -> PixelsView {
    let left = least(x, image.width);
    let top = least(y, image.height);
    let w = least(width, (image.width - left) as nat);
    let h = least(height, (image.height - top) as nat);
    PixelsView {
        width: w,
        height: h,
        data: Seq::new(4 * w * h, |i: int| image.data[window_index(image.width, left, top, w, i)]),
    }
}

/// The distance between two samples.
pub open spec fn sample_distance(a: u8, b: u8) -> u8 {
    if a >= b {
        (a - b) as u8
    } else {
        (b - a) as u8
    }
}

/// The colour difference of `one` and `two`: an image of the size of `one`
/// in which red, green and blue are the distances between the samples of
/// `one` and those of the pixel of `two` in the same column and row, and
/// alpha is that of `one`.
pub open spec fn difference(one: PixelsView, two: PixelsView) -> PixelsView {
    PixelsView {
        width: one.width,
        height: one.height,
        data: Seq::new(
            one.data.len(),
            |i: int|
                if i % 4 == 3 {
                    one.data[i]
                } else {
                    sample_distance(
                        one.data[i],
                        two.data[window_index(two.width, 0, 0, one.width, i)],
                    )
                },
        ),
    }
}

/// The colour difference of the upper and the lower half of `image`. An odd
/// row at the bottom belongs to neither half.
pub open spec fn horizontal_difference(image: PixelsView) -> PixelsView {
    let half = image.height / 2;
    difference(
        cropped(image, 0, 0, image.width, half),
        cropped(image, 0, half, image.width, half),
    )
}

/// The colour difference of the left and the right half of `image`. An odd
/// column at the right belongs to neither half.
pub open spec fn vertical_difference(image: PixelsView) -> PixelsView {
    let half = image.width / 2;
    difference(
        cropped(image, 0, 0, half, image.height),
        cropped(image, half, 0, half, image.height),
    )
}

/// A sample of a window inside an image is a sample of the image.
proof fn lemma_window_in_bounds(
    source_width: nat,
    source_height: nat,
    x: nat,
    y: nat,
    width: nat,
    height: nat,
    i: int,
)
    requires
        x + width <= source_width,
        y + height <= source_height,
        0 <= i < 4 * (width * height),
    ensures
        width > 0,
        0 <= (i / 4) % (width as int) < width,
        0 <= (i / 4) / (width as int) < height,
        0 <= (y + (i / 4) / (width as int)) * source_width,
        (y + (i / 4) / (width as int)) * source_width + x + (i / 4) % (width as int) < source_width
            * source_height,
        0 <= window_index(source_width, x, y, width, i) < 4 * (source_width * source_height),
{
    let pixel = i / 4;
    let w = width as int;
    assert(width > 0) by (nonlinear_arith)
        requires
            0 <= i < 4 * (width * height),
    ;
    let col = pixel % w;
    let row = pixel / w;
    assert(0 <= col < w && 0 <= row < height) by (nonlinear_arith)
        requires
            0 <= pixel < w * height,
            w > 0,
            col == pixel % w,
            row == pixel / w,
    ;
    assert(0 <= (y + row) * source_width && (y + row) * source_width + x + col < source_width
        * source_height) by (nonlinear_arith)
        requires
            0 <= row,
            y + row < source_height,
            0 <= col,
            x + col < source_width,
    ;
}

/// Cuts a window of `width` by `height` pixels out of `image`, with its top
/// left corner at column `x` of row `y`. What the window has outside the
/// image is left out.
pub fn crop(image: &PixelBuffer, x: u32, y: u32, width: u32, height: u32) -> (r: PixelBuffer)
    ensures
        r@ == cropped(image@, x as nat, y as nat, width as nat, height as nat),
{
    let (source_width, source_height) = image.dimensions();
    let source = image.as_raw();
    let left = if x < source_width { x } else { source_width };
    let top = if y < source_height { y } else { source_height };
    let w = if width < source_width - left { width } else { source_width - left };
    let h = if height < source_height - top { height } else { source_height - top };
    assert(w * h <= source_width * source_height) by (nonlinear_arith)
        requires
            0 <= w <= source_width,
            0 <= h <= source_height,
    ;
    assert(source@.len() == 4 * (source_width * source_height)) by (nonlinear_arith)
        requires
            source@.len() == 4 * (source_width as nat) * (source_height as nat),
    ;
    assert(4 * (w as nat) * (h as nat) == 4 * (w * h)) by (nonlinear_arith);
    let total: usize = source.len();
    assert(4 * (w * h) <= total);
    let pixels: usize = (w as usize) * (h as usize);
    let count: usize = 4 * pixels;
    let mut data: Vec<u8> = Vec::new();
    let mut i: usize = 0;
    while i < count
        invariant
            i <= count,
            count == 4 * (w * h),
            left + w <= source_width,
            top + h <= source_height,
            source@.len() == 4 * (source_width * source_height),
            source@.len() == total,
            data@.len() == i,
            forall|k: int|
                0 <= k < i ==> data@[k] == source@[window_index(
                    source_width as nat,
                    left as nat,
                    top as nat,
                    w as nat,
                    k,
                )],
        decreases count - i,
    {
        proof {
            lemma_window_in_bounds(
                source_width as nat,
                source_height as nat,
                left as nat,
                top as nat,
                w as nat,
                h as nat,
                i as int,
            );
        }
        let pixel = i / 4;
        let col = pixel % (w as usize);
        let row = pixel / (w as usize);
        let line: usize = (top as usize + row) * (source_width as usize);
        let index = 4 * (line + left as usize + col) + i % 4;
        data.push(source[index]);
        i += 1;
    }
    assert(data@ =~= cropped(image@, x as nat, y as nat, width as nat, height as nat).data);
    PixelBuffer::new(w, h, data)
}

/// The colour difference of `one` and `two`, which must be at least as wide
/// and as high as `one`.
pub fn image_diff(one: PixelBuffer, two: &PixelBuffer) -> (r: PixelBuffer)
    requires
        one@.width <= two@.width,
        one@.height <= two@.height,
    ensures
        r@ == difference(one@, two@),
{
    let (width, height) = one.dimensions();
    let (other_width, other_height) = two.dimensions();
    let other = two.as_raw();
    let ghost before = one@;
    let mut data = one.into_raw();
    assert(data@.len() == 4 * (width * height)) by (nonlinear_arith)
        requires
            data@.len() == 4 * (width as nat) * (height as nat),
    ;
    assert(other@.len() == 4 * (other_width * other_height)) by (nonlinear_arith)
        requires
            other@.len() == 4 * (other_width as nat) * (other_height as nat),
    ;
    assert(4 * (width * height) == 4 * width * height) by (nonlinear_arith);
    let count = data.len();
    let total: usize = other.len();
    let mut i: usize = 0;
    while i < count
        invariant
            i <= count,
            count == 4 * (width * height),
            width <= other_width,
            height <= other_height,
            data@.len() == count,
            before.data.len() == count,
            other@.len() == 4 * (other_width * other_height),
            other@.len() == total,
            forall|k: int| i <= k < count ==> data@[k] == before.data[k],
            forall|k: int|
                0 <= k < i ==> data@[k] == if k % 4 == 3 {
                    before.data[k]
                } else {
                    sample_distance(
                        before.data[k],
                        other@[window_index(other_width as nat, 0, 0, width as nat, k)],
                    )
                },
        decreases count - i,
    {
        proof {
            lemma_window_in_bounds(
                other_width as nat,
                other_height as nat,
                0,
                0,
                width as nat,
                height as nat,
                i as int,
            );
        }
        if i % 4 != 3 {
            let pixel = i / 4;
            let col = pixel % (width as usize);
            let row = pixel / (width as usize);
            let line: usize = row * (other_width as usize);
            let index = 4 * (line + col) + i % 4;
            let a = data[i];
            let b = other[index];
            let distance = if a >= b { a - b } else { b - a };
            data.set(i, distance);
        }
        i += 1;
    }
    assert(data@ =~= difference(before, two@).data);
    PixelBuffer::new(width, height, data)
}

/// The colour difference of the upper and the lower half of `image`.
pub fn create_hdiff_image(image: &PixelBuffer) -> (r: PixelBuffer)
    ensures
        r@ == horizontal_difference(image@),
{
    let (width, height) = image.dimensions();
    let half = height / 2;
    let upper = crop(image, 0, 0, width, half);
    let lower = crop(image, 0, half, width, half);
    image_diff(upper, &lower)
}

/// The colour difference of the left and the right half of `image`.
pub fn create_vdiff_image(image: &PixelBuffer) -> (r: PixelBuffer)
    ensures
        r@ == vertical_difference(image@),
{
    let (width, height) = image.dimensions();
    let half = width / 2;
    let left = crop(image, 0, 0, half, height);
    let right = crop(image, half, 0, half, height);
    image_diff(left, &right)
}

} // verus!
