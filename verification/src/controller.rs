//! ResizeController: the decisions of the render-loop lifecycle.
//!
//! The surrounding program performs the outside work — decoding the
//! image, querying the terminal, resampling, writing to the screen,
//! listening for geometry-change notifications — and asks this module
//! what to do at each step. Initialization either aborts (decode
//! failure, empty image) or yields a controller that lives for the rest
//! of the process; each render pass is then planned from a fresh
//! terminal-size query, and a failed query only skips that one pass:
//! the controller is untouched and serves the next notification.

use vstd::prelude::*;
use crate::fit::{
    fit_height, fit_width, lemma_fit_within_bounds, scale_image, Compression, TargetDimensions,
    TerminalGeometry,
};
use crate::frame::{build_colormap, quantized_rows, FrameError};
use crate::image::Image;
use crate::render::{render_bitmap, render_output};

verus! {

/// What the outside decoder produced at startup.
#[derive(Clone, Copy, PartialEq, Eq, Structural, Debug)]
pub enum DecodeOutcome {
    /// The image could not be read or decoded.
    Failed,
    /// A decoded bitmap of the given size in pixels.
    Decoded { width: u32, height: u32 },
}

/// A fatal startup error: the process exits before the render loop.
#[derive(Clone, Copy, PartialEq, Eq, Structural, Debug)]
pub enum InitError {
    /// The image could not be read or decoded.
    DecodeFailed,
    /// The image decoded to zero pixels on some axis.
    EmptyImage,
}

/// A non-fatal error inside one render pass: the pass is skipped and
/// the controller keeps waiting for the next notification.
#[derive(Clone, Copy, PartialEq, Eq, Structural, Debug)]
pub enum PassError {
    /// The terminal size could not be determined (or was degenerate).
    TerminalQuery,
}

/// What one render pass should do.
#[derive(Clone, Copy, PartialEq, Eq, Structural, Debug)]
pub enum PassAction {
    /// Report the error and abandon this pass; the controller stays
    /// ready for the next notification.
    Skip { error: PassError },
    /// Run the pipeline: clear the screen first if asked, resample the
    /// image to `target`, build the frame, and draw it.
    Render { clear_first: bool, geometry: TerminalGeometry, target: TargetDimensions },
}

/// The render loop's owner: the decoded image's size, fixed at
/// startup, and the fixed vertical compression factor. Nothing in it
/// ever changes once initialization has succeeded.
pub struct Controller {
    pub image_width: u32,
    pub image_height: u32,
    pub compression: Compression,
}

impl Controller {
    /// A controller only exists for a decoded, non-empty image.
    pub open spec fn wf(self) -> bool {
        self.image_width >= 1 && self.image_height >= 1 && self.compression.wf()
    }
}

/// The target dimensions a render pass uses for a given terminal
/// geometry: the aspect-preserving fit of the image.
pub open spec fn planned_target(g: TerminalGeometry, c: Controller) -> TargetDimensions {
    TargetDimensions {
        width: fit_width(
            g.columns as int,
            g.rows as int,
            c.image_width as int,
            c.image_height as int,
            c.compression.num as int,
            c.compression.den as int,
        ) as u32,
        height: fit_height(
            g.columns as int,
            g.rows as int,
            c.image_width as int,
            c.image_height as int,
            c.compression.num as int,
            c.compression.den as int,
        ) as u32,
    }
}

/// What initialization decides for each decode outcome.
pub open spec fn start_spec(decode: DecodeOutcome) -> Result<Controller, InitError> {
    match decode {
        DecodeOutcome::Failed => Err(InitError::DecodeFailed),
        DecodeOutcome::Decoded { width, height } => if width == 0 || height == 0 {
            Err(InitError::EmptyImage)
        } else {
            Ok(
                Controller {
                    image_width: width,
                    image_height: height,
                    compression: Compression { num: 1, den: 2 },
                },
            )
        },
    }
}

/// What a render pass does for each terminal-size query outcome: a
/// failed or degenerate query skips the pass; a good one renders at
/// the fit of the freshly queried geometry, clearing first if asked.
pub open spec fn plan_spec(c: Controller, query: Option<TerminalGeometry>, clear_first: bool) -> PassAction {
    match query {
        None => PassAction::Skip { error: PassError::TerminalQuery },
        Some(g) => if g.columns == 0 || g.rows == 0 {
            PassAction::Skip { error: PassError::TerminalQuery }
        } else {
            PassAction::Render { clear_first, geometry: g, target: planned_target(g, c) }
        },
    }
}

/// Initialize the controller from the decoder's outcome. Fails exactly
/// on a decode failure or an empty image; succeeds with a well-formed
/// controller holding the image's size and the fixed vertical
/// compression factor of one half.
pub fn start(decode: DecodeOutcome) -> (result: Result<Controller, InitError>)
    ensures
        result == start_spec(decode),
        result matches Ok(c) ==> c.wf(),
{
    match decode {
        DecodeOutcome::Failed => Err(InitError::DecodeFailed),
        DecodeOutcome::Decoded { width, height } => {
            if width == 0 || height == 0 {
                Err(InitError::EmptyImage)
            } else {
                Ok(
                    Controller {
                        image_width: width,
                        image_height: height,
                        compression: Compression { num: 1, den: 2 },
                    },
                )
            }
        },
    }
}

impl Controller {
    /// Plan one render pass from a fresh terminal-size query,
    /// optionally clearing the screen first. The controller itself is
    /// only read: no outcome, not even a failed query, changes or
    /// terminates it.
    fn plan_pass(&self, query: Option<TerminalGeometry>, clear_first: bool) -> (action: PassAction)
        requires
            self.wf(),
        ensures
            action == plan_spec(*self, query, clear_first),
    {
        match query {
            None => PassAction::Skip { error: PassError::TerminalQuery },
            Some(g) => {
                if g.columns == 0 || g.rows == 0 {
                    PassAction::Skip { error: PassError::TerminalQuery }
                } else {
                    let target = scale_image(g, self.image_width, self.image_height, self.compression);
                    proof {
                        lemma_fit_within_bounds(
                            g.columns as int,
                            g.rows as int,
                            self.image_width as int,
                            self.image_height as int,
                            self.compression.num as int,
                            self.compression.den as int,
                        );
                    }
                    PassAction::Render { clear_first, geometry: g, target }
                }
            },
        }
    }

    /// Plan the initial render pass, run once before the listener
    /// starts: no screen clear.
    pub fn initial_pass(&self, query: Option<TerminalGeometry>) -> (action: PassAction)
        requires
            self.wf(),
        ensures
            action == plan_spec(*self, query, false),
    {
        self.plan_pass(query, false)
    }

    /// Plan the render pass for one geometry-change notification: the
    /// screen is cleared first, then the pipeline runs at the newly
    /// queried geometry.
    pub fn on_notification(&self, query: Option<TerminalGeometry>) -> (action: PassAction)
        requires
            self.wf(),
        ensures
            action == plan_spec(*self, query, true),
    {
        self.plan_pass(query, true)
    }
}

/// The byte stream (or frame-build failure) that one render pass
/// produces from the resampled bitmap and the target dimensions.
pub open spec fn pass_result(img: Image, target: TargetDimensions) -> Result<Seq<u8>, FrameError> {
    if img.width != target.width || img.height != target.height {
        Err(FrameError::DimensionMismatch)
    } else if !img.wf() {
        Err(FrameError::MissingPixels)
    } else {
        Ok(render_output(quantized_rows(img)))
    }
}

/// The view of an executed pass's result as a mathematical value.
pub open spec fn pass_view(r: Result<Vec<u8>, FrameError>) -> Result<Seq<u8>, FrameError> {
    match r {
        Ok(bytes) => Ok(bytes@),
        Err(e) => Err(e),
    }
}

/// Run the in-process part of one render pass: check the resampled
/// bitmap against the target, quantize it into a frame grid, and lay
/// the grid out as the bytes to write. A frame-build failure abandons
/// the pass as a whole; no partial output is produced.
pub fn render_pass(resampled: &Image, target: TargetDimensions) -> (result: Result<
    Vec<u8>,
    FrameError,
>)
    ensures
        pass_view(result) == pass_result(*resampled, target),
{
    match build_colormap(resampled, target) {
        Err(e) => Err(e),
        Ok(grid) => {
            let bytes = render_bitmap(&grid);
            Ok(bytes)
        },
    }
}

/// Law: the pipeline is deterministic. Two render passes over the same
/// resampled bitmap and the same target dimensions — as two passes at
/// identical terminal geometry are — produce byte-identical output (or
/// fail identically).
pub proof fn lemma_pass_deterministic(
    img: Image,
    target: TargetDimensions,
    first: Result<Seq<u8>, FrameError>,
    second: Result<Seq<u8>, FrameError>,
)
    requires
        first == pass_result(img, target),
        second == pass_result(img, target),
    ensures
        first == second,
{
}

/// Law: a geometry-change notification with a successful query
/// triggers exactly one render pass, at the newly queried geometry's
/// fit, with the screen cleared first.
pub proof fn lemma_notification_renders(c: Controller, g: TerminalGeometry)
    requires
        c.wf(),
        g.columns >= 1,
        g.rows >= 1,
    ensures
        plan_spec(c, Some(g), true) == (PassAction::Render {
            clear_first: true,
            geometry: g,
            target: planned_target(g, c),
        }),
{
}

/// Law: a failed terminal-size query is not fatal. It skips only that
/// pass, and the very same controller still plans a full render for
/// the next notification whose query succeeds.
pub proof fn lemma_query_failure_recovers(c: Controller, g: TerminalGeometry)
    requires
        c.wf(),
        g.columns >= 1,
        g.rows >= 1,
    ensures
        plan_spec(c, None, true) == (PassAction::Skip { error: PassError::TerminalQuery }),
        plan_spec(c, Some(g), true) matches PassAction::Render { .. },
{
}

} // verus!
