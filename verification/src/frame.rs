//! Raw frames as a capture hands them over.

use vstd::prelude::*;

verus! {

/// One captured picture: `width` by `height` pixels of four bytes each, red,
/// green, blue and alpha, row by row.
///
/// A frame always holds exactly `4 * width * height` bytes.
#[derive(Debug, PartialEq, Eq)]
pub struct RawFrame {
    width: u32,
    height: u32,
    pixels: Vec<u8>,
}

/// [`RawFrame`] as contracts see it.
pub struct RawFrameView {
    pub width: u32,
    pub height: u32,
    pub pixels: Seq<u8>,
}

impl RawFrameView {
    /// Whether the pixel bytes fill the frame exactly.
    pub open spec fn shaped(self) -> bool {
        self.pixels.len() == 4 * self.width * self.height
    }
}

impl View for RawFrame {
    type V = RawFrameView;

    closed spec fn view(&self) -> RawFrameView {
        RawFrameView { width: self.width, height: self.height, pixels: self.pixels@ }
    }
}

/// The red, green and blue bytes of RGBA pixel data, with every alpha byte
/// left out. Bytes past the last whole pixel are left out too.
pub open spec fn drop_alpha(rgba: Seq<u8>) -> Seq<u8> {
    Seq::new((rgba.len() / 4 * 3) as nat, |i: int| rgba[i / 3 * 4 + i % 3])
}

impl RawFrame {
    #[verifier::type_invariant]
    spec fn filled(self) -> bool {
        self.pixels@.len() == 4 * self.width * self.height
    }

    /// Makes a frame of RGBA bytes, or nothing where the number of bytes is
    /// not `4 * width * height`.
    pub fn new(width: u32, height: u32, pixels: Vec<u8>) -> (res: Option<RawFrame>)
        ensures
            res is Some <==> pixels@.len() == 4 * width * height,
            res matches Some(frame) ==> frame@ == (RawFrameView { width, height, pixels: pixels@ }),
    {
        assert(width * height <= 0xffff_ffff * 0xffff_ffff) by (nonlinear_arith)
            requires
                width <= 0xffff_ffff,
                height <= 0xffff_ffff,
        ;
        assert(4 * width * height == 4 * (width * height)) by (nonlinear_arith);
        let area: u64 = (width as u64) * (height as u64);
        let expected: u128 = 4 * (area as u128);
        if pixels.len() as u128 == expected {
            Some(RawFrame { width, height, pixels })
        } else {
            None
        }
    }

    /// The width in pixels.
    pub fn width(&self) -> (res: u32)
        ensures
            res == self@.width,
            self@.shaped(),
    {
        proof {
            use_type_invariant(self);
        }
        self.width
    }

    /// The height in pixels.
    pub fn height(&self) -> (res: u32)
        ensures
            res == self@.height,
            self@.shaped(),
    {
        proof {
            use_type_invariant(self);
        }
        self.height
    }

    /// The RGBA bytes, row by row.
    pub fn pixels(&self) -> (res: &Vec<u8>)
        ensures
            res@ == self@.pixels,
            self@.shaped(),
    {
        proof {
            use_type_invariant(self);
        }
        &self.pixels
    }

    /// The frame as RGB bytes: the alpha byte of every pixel is dropped, the
    /// colour bytes are kept as they are.
    pub fn to_rgb8(&self) -> (rgb: Vec<u8>)
        ensures
            rgb@ == drop_alpha(self@.pixels),
            rgb@.len() == 3 * self@.width * self@.height,
    {
        proof {
            use_type_invariant(self);
            assert(4 * self.width * self.height == 4 * (self.width * self.height))
                by (nonlinear_arith);
            assert(3 * self.width * self.height == 3 * (self.width * self.height))
                by (nonlinear_arith);
        }
        let count: usize = self.pixels.len() / 4;
        let mut rgb: Vec<u8> = Vec::new();
        let mut k: usize = 0;
        while k < count
            invariant
                k <= count,
                self.pixels.len() == 4 * count,
                rgb.len() == 3 * k,
                forall|i: int| 0 <= i < 3 * k ==> rgb[i] == self.pixels[i / 3 * 4 + i % 3],
            decreases count - k,
        {
            rgb.push(self.pixels[4 * k]);
            rgb.push(self.pixels[4 * k + 1]);
            rgb.push(self.pixels[4 * k + 2]);
            k += 1;
        }
        assert(rgb@ =~= drop_alpha(self.pixels@));
        rgb
    }
}

impl Clone for RawFrame {
    fn clone(&self) -> (res: Self)
        ensures
            res@ == self@,
    {
        proof {
            use_type_invariant(self);
        }
        RawFrame { width: self.width, height: self.height, pixels: self.pixels.clone() }
    }
}

} // verus!
