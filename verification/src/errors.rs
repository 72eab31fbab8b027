//! The error taxonomy of the library: construction, per-text and
//! per-frame failures are kept apart so callers can react differently.

use vstd::prelude::*;

verus! {

/// Renderer construction failed: no canvas or no GPU context could be made.
#[derive(Clone, Copy, PartialEq, Eq, Structural, Debug)]
pub enum SurfaceInitError {
    /// The window reported a zero physical width or height.
    ZeroSizedCanvas,
    /// The requested canvas would not fit in addressable memory.
    CanvasTooLarge,
    /// No compatible GPU adapter or device was available.
    GpuContextUnavailable,
}

/// One text draw call failed; the canvas keeps its pixels and the frame
/// may still be presented, only this text does not appear.
#[derive(Clone, Copy, PartialEq, Eq, Structural, Debug)]
pub enum TextPrepareError {
    /// A glyph could not be rasterized (corrupt font data, missing glyph).
    GlyphRasterization,
    /// Uploading the prepared glyph data to the GPU failed.
    GpuBufferPreparation,
}

/// Presenting a frame failed. A transient failure means "skip this frame,
/// try again on the next redraw"; a lost device means the whole surface
/// must be torn down and rebuilt.
#[derive(Clone, Copy, PartialEq, Eq, Structural, Debug)]
pub enum PresentError {
    /// A single render step failed this frame; the next frame may succeed.
    Transient,
    /// The GPU device is gone; the surface must be reconstructed.
    DeviceLost,
}

} // verus!
