use vstd::prelude::*;

verus! {

/// The fixed inset, in pixels, between the surface edge and the outline.
pub const MARGIN: i64 = 50;

/// An axis-aligned rectangle outline, given by two corners in pixels.
/// The second corner may lie above or left of the first: the extent is then
/// zero or negative, which drawing accepts as a degenerate shape.
#[derive(Clone, Copy, Debug, PartialEq, Eq, Structural)]
pub struct Outline {
    pub x0: i64,
    pub y0: i64,
    pub x1: i64,
    pub y1: i64,
}

/// The outline drawn on a surface of `width` by `height` pixels.
pub open spec fn outline_spec(width: int, height: int) -> Outline {
    Outline {
        x0: MARGIN as i64,
        y0: MARGIN as i64,
        x1: (width - 2 * MARGIN) as i64,
        y1: (height - 2 * MARGIN) as i64,
    }
}

/// Builds the frame's outline for a surface of the given pixel size: inset by
/// `MARGIN` at the top left, ending `2 * MARGIN` before the far edges. Any
/// size is accepted, including sizes below `2 * MARGIN`.
pub fn outline_for(width: u32, height: u32) -> (r: Outline)
    ensures
        r == outline_spec(width as int, height as int),
        r.x0 == MARGIN && r.y0 == MARGIN,
        r.x1 == width - 2 * MARGIN && r.y1 == height - 2 * MARGIN,
{
    Outline {
        x0: MARGIN,
        y0: MARGIN,
        x1: width as i64 - 2 * MARGIN,
        y1: height as i64 - 2 * MARGIN,
    }
}

impl Outline {
    /// Whether the outline encloses no area.
    pub fn is_degenerate(&self) -> (r: bool)
        ensures
            r == (self.x1 <= self.x0 || self.y1 <= self.y0),
    {
        self.x1 <= self.x0 || self.y1 <= self.y0
    }
}

/// What one frame draws and at which size it renders: the render size is the
/// surface's configured size, which the acquired texture has.
#[derive(Clone, Copy, Debug, PartialEq, Eq, Structural)]
pub struct FramePlan {
    pub outline: Outline,
    pub width: u32,
    pub height: u32,
}

/// The plan for a frame on a surface of `width` by `height` pixels.
pub open spec fn frame_plan_spec(width: u32, height: u32) -> FramePlan {
    FramePlan { outline: outline_spec(width as int, height as int), width, height }
}

/// Plans a frame on a surface of the given size.
pub fn plan_frame(width: u32, height: u32) -> (r: FramePlan)
    ensures
        r == frame_plan_spec(width, height),
{
    FramePlan { outline: outline_for(width, height), width, height }
}

} // verus!
