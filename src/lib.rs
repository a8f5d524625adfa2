//! Verified pacing and decision logic for a fixed-rate render loop.
//!
//! Time is counted in whole nanoseconds and angles in nanodegrees, so that
//! the schedule and the example scene's rotation are exact integers.

pub mod clock;
pub mod draw;
pub mod driver;
pub mod input;
pub mod scene;

pub use clock::{frame_nanos_for_rate, ClockModel, FrameClock, NANOS_PER_SECOND};
pub use input::{exit_requested, is_exit_event, InputEvent, Key};
pub use scene::{wrap_angle, SceneState, FULL_TURN, NANODEGREES_PER_NANOSECOND};
pub use draw::{AspectRatio, Culling, DepthTest, DrawState};
pub use driver::{FrameDriver, LoopAction, LoopEvent, Phase};
