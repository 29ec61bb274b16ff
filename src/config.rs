use vstd::prelude::*;

verus! {

/// Width in pixels of the captured frames.
pub const CAPTURE_WIDTH: u32 = 1440;

/// Height in pixels of the captured frames.
pub const CAPTURE_HEIGHT: u32 = 2560;

/// Position, in the list of shareable displays, of the display captured.
pub const DISPLAY_INDEX: usize = 1;

/// Layout of captured pixels: four bytes per pixel, blue, green, red, alpha.
#[derive(Clone, Copy, Debug, PartialEq, Eq, Structural)]
pub enum PixelFormat {
    Bgra,
}

/// Settings a capture session is opened with.
#[derive(Clone, Copy, Debug, PartialEq, Eq, Structural)]
pub struct CaptureConfig {
    pub width: u32,
    pub height: u32,
    pub pixel_format: PixelFormat,
    pub display_index: usize,
}

/// The settings every session of this element uses.
pub open spec fn fixed_config() -> CaptureConfig {
    CaptureConfig {
        width: CAPTURE_WIDTH,
        height: CAPTURE_HEIGHT,
        pixel_format: PixelFormat::Bgra,
        display_index: DISPLAY_INDEX,
    }
}

/// Video format that the element's source pad offers.
#[derive(Clone, Copy, Debug, PartialEq, Eq, Structural)]
pub struct VideoCaps {
    pub format: PixelFormat,
    pub width: u32,
    pub height: u32,
}

impl CaptureConfig {
    /// The fixed capture settings.
    pub fn fixed() -> (r: CaptureConfig)
        ensures
            r == fixed_config(),
    {
        CaptureConfig {
            width: CAPTURE_WIDTH,
            height: CAPTURE_HEIGHT,
            pixel_format: PixelFormat::Bgra,
            display_index: DISPLAY_INDEX,
        }
    }

    /// Which of `display_count` shareable displays to capture: the configured
    /// position, or none when there are not that many displays.
    pub fn pick_display(&self, display_count: usize) -> (r: Option<usize>)
        ensures
            r == (if self.display_index < display_count {
                Some(self.display_index)
            } else {
                None::<usize>
            }),
    {
        if self.display_index < display_count {
            Some(self.display_index)
        } else {
            None
        }
    }

    /// The video format that frames captured with these settings have.
    pub fn caps(&self) -> (r: VideoCaps)
        ensures
            r == (VideoCaps { format: self.pixel_format, width: self.width, height: self.height }),
    {
        VideoCaps { format: self.pixel_format, width: self.width, height: self.height }
    }
}

} // verus!
