use vstd::prelude::*;

verus! {

/// How a rendered frame becomes visible. The session fixes automatic
/// vertical sync when the surface is created.
#[derive(Clone, Copy, Debug, PartialEq, Eq, Structural)]
pub enum PresentMode {
    AutoVsync,
}

/// A surface's current swap-chain configuration.
#[derive(Clone, Copy, Debug, PartialEq, Eq, Structural)]
pub struct SurfaceConfig {
    pub width: u32,
    pub height: u32,
    pub present_mode: PresentMode,
}

/// What a resize request did to the configuration.
#[derive(Clone, Copy, Debug, PartialEq, Eq, Structural)]
pub enum ResizeOutcome {
    /// The size changed: the swap chain must be reconfigured to it.
    Reconfigured,
    /// The size is already configured: nothing is reallocated.
    Unchanged,
    /// A dimension is zero: the window is not sized yet, so the
    /// configuration is kept until a usable size arrives.
    Deferred,
}

/// The configuration after a resize request to `width` by `height`.
pub open spec fn resized_spec(c: SurfaceConfig, width: u32, height: u32) -> SurfaceConfig {
    if width == 0 || height == 0 {
        c
    } else {
        SurfaceConfig { width, height, ..c }
    }
}

/// What a resize request to `width` by `height` reports.
pub open spec fn resize_outcome_spec(c: SurfaceConfig, width: u32, height: u32) -> ResizeOutcome {
    if width == 0 || height == 0 {
        ResizeOutcome::Deferred
    } else if c.width == width && c.height == height {
        ResizeOutcome::Unchanged
    } else {
        ResizeOutcome::Reconfigured
    }
}

impl SurfaceConfig {
    /// The configuration a new surface of the given size starts with.
    pub fn new(width: u32, height: u32) -> (r: SurfaceConfig)
        ensures
            r.width == width,
            r.height == height,
            r.present_mode == PresentMode::AutoVsync,
    {
        SurfaceConfig { width, height, present_mode: PresentMode::AutoVsync }
    }

    /// The configured size, as (width, height).
    pub fn size(&self) -> (r: (u32, u32))
        ensures
            r == (self.width, self.height),
    {
        (self.width, self.height)
    }

    /// Whether both dimensions are nonzero, so that the swap chain can hold
    /// textures of this size.
    pub fn is_drawable(&self) -> (r: bool)
        ensures
            r == (self.width > 0 && self.height > 0),
    {
        self.width > 0 && self.height > 0
    }

    /// Takes a new window size. A zero dimension is deferred; the size
    /// already configured is left alone; any other size replaces the old
    /// one, and the caller reconfigures the swap chain.
    pub fn resize(&mut self, width: u32, height: u32) -> (r: ResizeOutcome)
        ensures
            *final(self) == resized_spec(*old(self), width, height),
            r == resize_outcome_spec(*old(self), width, height),
    {
        if width == 0 || height == 0 {
            ResizeOutcome::Deferred
        } else if self.width == width && self.height == height {
            ResizeOutcome::Unchanged
        } else {
            self.width = width;
            self.height = height;
            ResizeOutcome::Reconfigured
        }
    }
}

/// Resizing to a size with no zero dimension and then reading the
/// configuration gives back exactly that size.
pub proof fn lemma_resize_then_size(c: SurfaceConfig, width: u32, height: u32)
    requires
        width > 0,
        height > 0,
    ensures
        resized_spec(c, width, height).width == width,
        resized_spec(c, width, height).height == height,
        resized_spec(c, width, height).present_mode == c.present_mode,
{
}

/// Resizing twice to the same size leaves the configuration as the first
/// resize left it, and the second resize reallocates nothing.
pub proof fn lemma_resize_idempotent(c: SurfaceConfig, width: u32, height: u32)
    ensures
        resized_spec(resized_spec(c, width, height), width, height) == resized_spec(c, width, height),
        resize_outcome_spec(resized_spec(c, width, height), width, height) != ResizeOutcome::Reconfigured,
{
}

} // verus!
