//! FrameBuilder: turns a resampled bitmap into a grid of palette
//! indices, one per character cell.
//!
//! The resampling itself is an outside capability; this component takes
//! its result and checks the one contract it imposes on it — the
//! resampled bitmap must have exactly the target dimensions — then
//! quantizes every sample, normalizing the delivered blue-green-red
//! channel order to red-green-blue. A failed check fails the whole
//! frame: no partial grid is ever produced.

use vstd::prelude::*;
use crate::fit::TargetDimensions;
use crate::image::Image;
use crate::quantize::{quantized, rgb_to_256_color};

verus! {

/// Why a frame could not be built.
#[derive(Clone, Copy, PartialEq, Eq, Structural, Debug)]
pub enum FrameError {
    /// The resampled bitmap does not have the target dimensions.
    DimensionMismatch,
    /// The resampled bitmap does not hold one sample per pixel, so a
    /// pixel fetch would fail during quantization.
    MissingPixels,
}

/// A grid of palette indices, `height` rows of `width` cells each,
/// consumed by the renderer.
pub struct FrameGrid {
    pub width: u32,
    pub height: u32,
    pub cells: Vec<Vec<u8>>,
}

impl FrameGrid {
    /// The grid is rectangular with exactly the declared dimensions.
    pub open spec fn wf(self) -> bool {
        &&& self.cells@.len() == self.height as int
        &&& forall|r: int|
            0 <= r < self.height as int ==> (#[trigger] self.cells@[r])@.len()
                == self.width as int
    }
}

/// The rows of a grid as mathematical sequences.
pub open spec fn rows_view(cells: Seq<Vec<u8>>) -> Seq<Seq<u8>> {
    Seq::new(cells.len(), |i: int| cells[i]@)
}

/// The grid of palette indices that quantizing every sample of a bitmap
/// (normalized to red-green-blue order) produces.
pub open spec fn quantized_rows(img: Image) -> Seq<Seq<u8>> {
    Seq::new(
        img.height as nat,
        |r: int|
            Seq::new(
                img.width as nat,
                |c: int|
                    quantized(
                        img.sample(r, c).red,
                        img.sample(r, c).green,
                        img.sample(r, c).blue,
                    ) as u8,
            ),
    )
}

/// Build the grid of palette indices for a bitmap that the outside
/// resampler produced for the given target dimensions.
///
/// Succeeds exactly when the bitmap has the target dimensions and one
/// sample per pixel; the grid then has exactly the target dimensions,
/// and each cell holds the palette index of the sample at its position.
pub fn build_colormap(resampled: &Image, dimensions: TargetDimensions) -> (result: Result<
    FrameGrid,
    FrameError,
>)
    ensures
        result is Ok <==> (resampled.width == dimensions.width && resampled.height
            == dimensions.height && resampled.wf()),
        (resampled.width != dimensions.width || resampled.height != dimensions.height)
            ==> result == Err::<FrameGrid, FrameError>(FrameError::DimensionMismatch),
        (resampled.width == dimensions.width && resampled.height == dimensions.height
            && !resampled.wf()) ==> result == Err::<FrameGrid, FrameError>(
            FrameError::MissingPixels,
        ),
        result matches Ok(grid) ==> {
            &&& grid.wf()
            &&& grid.width == dimensions.width
            &&& grid.height == dimensions.height
            &&& rows_view(grid.cells@) == quantized_rows(*resampled)
        },
{
    if resampled.width != dimensions.width || resampled.height != dimensions.height {
        return Err(FrameError::DimensionMismatch);
    }
    let width = resampled.width;
    let height = resampled.height;
    proof {
        assert(0 <= (width as int) * (height as int) < 0x1_0000_0000_0000_0000)
            by (nonlinear_arith)
            requires
                width < 0x1_0000_0000,
                height < 0x1_0000_0000,
        ;
    }
    let needed: u64 = (width as u64) * (height as u64);
    if (resampled.samples.len() as u64) != needed {
        return Err(FrameError::MissingPixels);
    }
    let mut cells: Vec<Vec<u8>> = Vec::new();
    let mut r: u32 = 0;
    while r < height
        invariant
            resampled.wf(),
            resampled.samples@.len() <= usize::MAX,
            resampled.width == width,
            resampled.height == height,
            r <= height,
            cells@.len() == r as int,
            forall|i: int|
                0 <= i < r as int ==> (#[trigger] cells@[i])@.len() == width as int,
            forall|i: int, j: int|
                0 <= i < r as int && 0 <= j < width as int ==> (#[trigger] cells@[i]@[j]) as int
                    == quantized(
                    resampled.sample(i, j).red,
                    resampled.sample(i, j).green,
                    resampled.sample(i, j).blue,
                ),
        decreases height - r,
    {
        let mut row: Vec<u8> = Vec::new();
        let mut c: u32 = 0;
        while c < width
            invariant
                resampled.wf(),
                resampled.samples@.len() <= usize::MAX,
                resampled.width == width,
                resampled.height == height,
                r < height,
                c <= width,
                row@.len() == c as int,
                forall|j: int|
                    0 <= j < c as int ==> (#[trigger] row@[j]) as int == quantized(
                        resampled.sample(r as int, j).red,
                        resampled.sample(r as int, j).green,
                        resampled.sample(r as int, j).blue,
                    ),
            decreases width - c,
        {
            proof {
                assert((r as int) * (width as int) + (c as int) < (width as int) * (height as int)
                    && 0 <= (r as int) * (width as int) + (c as int)) by (nonlinear_arith)
                    requires
                        0 <= r < height,
                        0 <= c < width,
                ;
            }
            let idx: usize = (r as usize) * (width as usize) + (c as usize);
            let p = resampled.samples[idx];
            row.push(rgb_to_256_color(p.red, p.green, p.blue));
            c = c + 1;
        }
        cells.push(row);
        r = r + 1;
    }
    let grid = FrameGrid { width, height, cells };
    proof {
        assert forall|i: int| 0 <= i < height as int implies rows_view(grid.cells@)[i]
            =~= quantized_rows(*resampled)[i] by {}
        assert(rows_view(grid.cells@) =~~= quantized_rows(*resampled));
    }
    Ok(grid)
}

} // verus!
