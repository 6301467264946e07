use vstd::prelude::*;

verus! {

/// Samples per pixel of the offscreen anti-aliasing target; fixed for
/// the life of the process.
pub const MSAA_SAMPLE_COUNT: u32 = 16;

/// Width and height in pixels.
#[derive(Clone, Copy, PartialEq, Eq, Structural, Debug)]
pub struct SurfaceDims {
    pub width: u32,
    pub height: u32,
}

impl SurfaceDims {
    /// A surface can be drawn to only when both dimensions are positive;
    /// a zero-sized swap chain or attachment is a fatal GPU error.
    pub open spec fn is_drawable(self) -> bool {
        self.width > 0 && self.height > 0
    }

    pub fn new(width: u32, height: u32) -> (r: SurfaceDims)
        ensures
            r == (SurfaceDims { width, height }),
    {
        SurfaceDims { width, height }
    }

    pub fn drawable(&self) -> (r: bool)
        ensures
            r == self.is_drawable(),
    {
        self.width > 0 && self.height > 0
    }
}

/// Color layout of the presentation surface and of every attachment
/// that resolves into it.
#[derive(Clone, Copy, PartialEq, Eq, Structural, Debug)]
pub enum PixelFormat {
    Bgra8Unorm,
    Rgba8Unorm,
}

/// How presented images are paced.  The effect runs in a low-latency,
/// tear-free mode.
#[derive(Clone, Copy, PartialEq, Eq, Structural, Debug)]
pub enum PresentModeKind {
    Mailbox,
}

/// The swap chain's configuration.  Its width and height must equal the
/// window's client-area size: any mismatch after a resize event is
/// corrected before the next frame is recorded.
#[derive(Clone, Copy, PartialEq, Eq, Structural, Debug)]
pub struct SurfaceConfiguration {
    pub dims: SurfaceDims,
    pub format: PixelFormat,
    pub present_mode: PresentModeKind,
}

impl SurfaceConfiguration {
    pub fn new(width: u32, height: u32, format: PixelFormat) -> (r: SurfaceConfiguration)
        ensures
            r.dims == (SurfaceDims { width, height }),
            r.format == format,
            r.present_mode == PresentModeKind::Mailbox,
    {
        SurfaceConfiguration {
            dims: SurfaceDims { width, height },
            format,
            present_mode: PresentModeKind::Mailbox,
        }
    }

    /// Rebuilds the swap chain configuration for a new window size.
    /// Never called with a zero dimension: a zero-sized swap chain is a
    /// fatal GPU error, so drawing is suspended instead.
    pub fn reconfigure(&mut self, width: u32, height: u32)
        requires
            width > 0,
            height > 0,
        ensures
            final(self).dims == (SurfaceDims { width, height }),
            final(self).format == old(self).format,
            final(self).present_mode == old(self).present_mode,
    {
        self.dims = SurfaceDims { width, height };
    }
}

/// Descriptor of the offscreen multisampled color target.  It is torn
/// down and rebuilt on every resize so that its dimensions never
/// disagree with the presentation surface when a frame is recorded: a
/// stale target is a fatal dimension mismatch between the multisample
/// attachment and its resolve target.
#[derive(Clone, Copy, PartialEq, Eq, Structural, Debug)]
pub struct MsaaTargetDescriptor {
    pub dims: SurfaceDims,
    pub sample_count: u32,
    pub format: PixelFormat,
}

impl MsaaTargetDescriptor {
    /// The sample count is fixed and the format must equal the
    /// presentation surface's.
    pub open spec fn matches(self, surface: SurfaceConfiguration) -> bool {
        &&& self.dims == surface.dims
        &&& self.sample_count == MSAA_SAMPLE_COUNT
        &&& self.format == surface.format
    }

    pub fn new(surface: &SurfaceConfiguration) -> (r: MsaaTargetDescriptor)
        ensures
            r.matches(*surface),
    {
        MsaaTargetDescriptor {
            dims: surface.dims,
            sample_count: MSAA_SAMPLE_COUNT,
            format: surface.format,
        }
    }

    /// Rebuilds the multisample attachment for a new size.  Must happen
    /// atomically with the surface reconfiguration, and with the same
    /// dimensions.
    pub fn reconfigure(&mut self, width: u32, height: u32)
        requires
            width > 0,
            height > 0,
        ensures
            final(self).dims == (SurfaceDims { width, height }),
            final(self).sample_count == old(self).sample_count,
            final(self).format == old(self).format,
    {
        self.dims = SurfaceDims { width, height };
    }
}

} // verus!
