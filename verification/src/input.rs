//! What one frame is given from outside: the window, the pointer, the
//! keyboard and the clock.
use vstd::prelude::*;
use crate::geometry::{Vec2, MAX_EXTENT, UNITS_PER_PIXEL};

verus! {

/// Least window height in which the bird has room to move: its upper
/// margin and its lower margin together.
pub const MIN_SCREEN_HEIGHT: i64 = 48 * UNITS_PER_PIXEL;

/// The state of the outside world at the start of a frame.
#[derive(Clone, Copy, Debug)]
pub struct FrameInput {
    /// Width of the window.
    pub screen_width: i64,
    /// Height of the window.
    pub screen_height: i64,
    /// Whether the primary pointer button is held down.
    pub mouse_down: bool,
    /// Where the pointer is.
    pub mouse_position: Vec2,
    /// Whether the cancel key went down since the last frame.
    pub escape_pressed: bool,
    /// Microseconds since the last frame.
    pub frame_time: u32,
}

/// Whether a window of this size can hold a scene.
pub open spec fn screen_fits(screen_width: i64, screen_height: i64) -> bool {
    &&& 0 <= screen_width <= MAX_EXTENT
    &&& MIN_SCREEN_HEIGHT <= screen_height <= MAX_EXTENT
}

impl FrameInput {
    /// The window can hold a scene.
    pub open spec fn wf(&self) -> bool {
        screen_fits(self.screen_width, self.screen_height)
    }

    /// Tests [`FrameInput::wf`].
    pub fn is_valid(&self) -> (ok: bool)
        ensures
            ok == self.wf(),
    {
        0 <= self.screen_width && self.screen_width <= MAX_EXTENT && MIN_SCREEN_HEIGHT
            <= self.screen_height && self.screen_height <= MAX_EXTENT
    }
}

} // verus!
