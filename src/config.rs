use vstd::prelude::*;

verus! {

/// Window and renderer settings: the one flat configuration record.
#[derive(Debug, Clone, Copy)]
pub struct RendererConfig {
    pub width: u32,
    pub height: u32,
    pub title: &'static str,
    pub frame_count: u32,
}

impl Default for RendererConfig {
    fn default() -> (r: Self)
        ensures
            r.width == 1920,
            r.height == 1080,
            r.title@ == "Computer Graphics"@,
            r.frame_count == 2,
    {
        RendererConfig { width: 1920, height: 1080, title: "Computer Graphics", frame_count: 2 }
    }
}

/// A rectangle anchored at the surface origin, used for both the viewport
/// (depth range 0 to 1) and the scissor rectangle.
#[derive(Debug, Clone, Copy, PartialEq, Eq, Structural)]
pub struct SurfaceRect {
    pub width: u32,
    pub height: u32,
}

impl SurfaceRect {
    /// The rectangle covering a whole surface of the given size.
    pub fn covering(width: u32, height: u32) -> (r: Self)
        ensures
            r.width == width,
            r.height == height,
    {
        SurfaceRect { width, height }
    }
}

} // verus!
