use vstd::prelude::*;

verus! {

/// How a fragment's depth is compared with the depth buffer.
#[derive(Clone, Copy, Debug, PartialEq, Eq, Structural)]
pub enum DepthTest {
    Always,
    IfLess,
}

/// Which faces are dropped before rasterizing.
#[derive(Clone, Copy, Debug, PartialEq, Eq, Structural)]
pub enum Culling {
    Disabled,
    Clockwise,
    CounterClockwise,
}

/// The draw configuration a frame is rendered with. It is built afresh for
/// every frame and only lent to the renderer.
#[derive(Clone, Copy, Debug, PartialEq, Eq, Structural)]
pub struct DrawState {
    pub depth_test: DepthTest,
    pub depth_write: bool,
    pub culling: Culling,
}

/// The configuration of every frame: depth test "pass if less", depth
/// writes on, clockwise faces culled.
pub open spec fn frame_draw_state() -> DrawState {
    DrawState { depth_test: DepthTest::IfLess, depth_write: true, culling: Culling::Clockwise }
}

impl DrawState {
    /// Builds the configuration of one frame.
    pub fn for_frame() -> (r: DrawState)
        ensures
            r == frame_draw_state(),
    {
        DrawState { depth_test: DepthTest::IfLess, depth_write: true, culling: Culling::Clockwise }
    }
}

/// The frame buffer's shape when a frame is rendered, as the ratio
/// `width / height` of its pixel counts.
#[derive(Clone, Copy, Debug, PartialEq, Eq, Structural)]
pub struct AspectRatio {
    pub width: u32,
    pub height: u32,
}

} // verus!
