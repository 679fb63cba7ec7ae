//! Settings of a screen capture session.

use vstd::prelude::*;

verus! {

/// The size and rate of captured frames.
pub struct CaptureConfig {
    pub width: u32,
    pub height: u32,
    pub frame_rate: u32,
}

impl Default for CaptureConfig {
    /// Full HD at thirty frames a second.
    fn default() -> (r: Self)
        ensures
            r.width == 1920,
            r.height == 1080,
            r.frame_rate == 30,
    {
        CaptureConfig { width: 1920, height: 1080, frame_rate: 30 }
    }
}

} // verus!
