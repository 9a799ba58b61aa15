//! Decoded images as plain values.

use vstd::prelude::*;

verus! {

/// The model of a decoded image: its dimensions and its samples, four per
/// pixel (red, green, blue, alpha), row by row from the top left.
pub struct PixelsView {
    pub width: nat,
    pub height: nat,
    pub data: Seq<u8>,
}

impl PixelsView {
    /// The number of samples that the dimensions call for.
    pub open spec fn sample_count(self) -> nat {
        4 * self.width * self.height
    }

    /// Whether there are as many samples as the dimensions call for.
    pub open spec fn well_formed(self) -> bool {
        self.data.len() == self.sample_count()
    }
}

/// A decoded image with 8-bit RGBA samples. It always holds exactly four
/// samples for each of its `width * height` pixels.
#[derive(Debug, PartialEq, Eq)]
pub struct PixelBuffer {
    width: u32,
    height: u32,
    data: Vec<u8>,
}

impl View for PixelBuffer {
    type V = PixelsView;

    closed spec fn view(&self) -> PixelsView {
        PixelsView { width: self.width as nat, height: self.height as nat, data: self.data@ }
    }
}

impl Clone for PixelBuffer {
    fn clone(&self) -> (r: PixelBuffer)
        ensures
            r@ == self@,
    {
        proof {
            use_type_invariant(self);
        }
        PixelBuffer { width: self.width, height: self.height, data: self.data.clone() }
    }
}

impl PixelBuffer {
    #[verifier::type_invariant]
    spec fn full(self) -> bool {
        self.data@.len() == 4 * self.width * self.height
    }

    /// Builds an image from dimensions and samples that agree.
    pub(crate) fn new(width: u32, height: u32, data: Vec<u8>) -> (r: PixelBuffer)
        requires
            data@.len() == 4 * width * height,
        ensures
            r@ == (PixelsView { width: width as nat, height: height as nat, data: data@ }),
    {
        PixelBuffer { width, height, data }
    }

    /// Builds an image from its dimensions and samples. The samples are
    /// accepted only if there are exactly `4 * width * height` of them.
    pub fn from_raw(width: u32, height: u32, data: Vec<u8>) -> (r: Option<PixelBuffer>)
        ensures
            r is Some <==> data@.len() == 4 * width * height,
            r is Some ==> r->Some_0@ == (PixelsView {
                width: width as nat,
                height: height as nat,
                data: data@,
            }),
    {
        assert(width * height <= 0xFFFF_FFFF * 0xFFFF_FFFF) by (nonlinear_arith)
            requires
                width <= 0xFFFF_FFFF,
                height <= 0xFFFF_FFFF,
        ;
        let pixels: u64 = width as u64 * height as u64;
        let wanted: u128 = 4 * (pixels as u128);
        assert(wanted == 4 * width * height) by (nonlinear_arith)
            requires
                wanted == 4 * pixels,
                pixels == width * height,
        ;
        if data.len() as u128 == wanted {
            Some(PixelBuffer::new(width, height, data))
        } else {
            None
        }
    }

    /// The width in pixels.
    pub fn width(&self) -> (w: u32)
        ensures
            w == self@.width,
    {
        self.width
    }

    /// The height in pixels.
    pub fn height(&self) -> (h: u32)
        ensures
            h == self@.height,
    {
        self.height
    }

    /// The width and the height in pixels.
    pub fn dimensions(&self) -> (d: (u32, u32))
        ensures
            d.0 == self@.width,
            d.1 == self@.height,
    {
        (self.width, self.height)
    }

    /// The samples.
    pub fn as_raw(&self) -> (data: &Vec<u8>)
        ensures
            data@ == self@.data,
            self@.well_formed(),
    {
        proof {
            use_type_invariant(self);
            assert(4 * (self.width as nat) * (self.height as nat) == 4 * self.width * self.height)
                by (nonlinear_arith);
        }
        &self.data
    }

    /// Gives up the image for its samples.
    pub fn into_raw(self) -> (data: Vec<u8>)
        ensures
            data@ == self@.data,
            self@.well_formed(),
    {
        proof {
            use_type_invariant(&self);
            assert(4 * (self.width as nat) * (self.height as nat) == 4 * self.width * self.height)
                by (nonlinear_arith);
        }
        self.data
    }
}

} // verus!
