use vstd::prelude::*;

verus! {

/// Geometry and sample layout of an image frame, as a JPEG-LS header states it.
#[derive(Debug, Copy, Clone, PartialEq, Eq, Structural, Default)]
pub struct FrameInfo {
    /// Width in pixels.
    pub width: u32,
    /// Height in pixels.
    pub height: u32,
    /// Bit depth of one sample.
    pub bits_per_sample: i32,
    /// Number of components (1 for grayscale, 3 for RGB).
    pub component_count: i32,
}

impl FrameInfo {
    /// A frame with the given geometry.
    pub fn new(width: u32, height: u32, bits_per_sample: i32, component_count: i32) -> (r: FrameInfo)
        ensures
            r.width == width,
            r.height == height,
            r.bits_per_sample == bits_per_sample,
            r.component_count == component_count,
    {
        FrameInfo { width, height, bits_per_sample, component_count }
    }
}

} // verus!
