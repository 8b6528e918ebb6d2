//! The decoded bitmap as the library sees it: a size and a row-major
//! sequence of 3-channel color samples.
//!
//! The outside decoder and resampler deliver samples in blue-green-red
//! channel order; the sample type records that order, and the frame
//! builder normalizes to red-green-blue when it quantizes.

use vstd::prelude::*;

verus! {

/// One 3-channel color sample, in the blue-green-red order the decoding
/// collaborator delivers.
#[derive(Clone, Copy, PartialEq, Eq, Structural, Debug)]
pub struct Bgr {
    pub blue: u8,
    pub green: u8,
    pub red: u8,
}

/// An immutable decoded (or resampled) bitmap: `width x height` pixels,
/// one sample per pixel, row-major.
pub struct Image {
    pub width: u32,
    pub height: u32,
    pub samples: Vec<Bgr>,
}

impl Image {
    /// The bitmap is consistent: exactly one sample per pixel.
    pub open spec fn wf(self) -> bool {
        self.samples@.len() == (self.width as int) * (self.height as int)
    }

    /// The sample at a given row and column of the row-major layout.
    pub open spec fn sample(self, row: int, col: int) -> Bgr {
        self.samples@[row * (self.width as int) + col]
    }
}

} // verus!
