use vstd::prelude::*;

use crate::config::{fixed_config, CaptureConfig, VideoCaps};

verus! {

/// Name under which the element is registered.
pub const ELEMENT_NAME: &'static str = "screencapturesrc";

/// Name of the element's type.
pub const TYPE_NAME: &'static str = "GstScreenCaptureSrc";

/// Name of the element's single source pad.
pub const SRC_PAD_NAME: &'static str = "src";

/// Whether the element's output can be seeked: a live capture cannot.
pub const IS_SEEKABLE: bool = false;

/// Human-readable description of the element.
#[derive(Clone, Copy, Debug)]
pub struct ElementMetadata {
    pub long_name: &'static str,
    pub classification: &'static str,
    pub description: &'static str,
    pub author: &'static str,
}

/// Direction of a pad.
#[derive(Clone, Copy, Debug, PartialEq, Eq, Structural)]
pub enum PadDirection {
    Src,
    Sink,
}

/// When a pad exists.
#[derive(Clone, Copy, Debug, PartialEq, Eq, Structural)]
pub enum PadPresence {
    Always,
    Sometimes,
    Request,
}

/// Template of a pad that the element offers.
#[derive(Clone, Copy, Debug)]
pub struct PadTemplateInfo {
    pub name: &'static str,
    pub direction: PadDirection,
    pub presence: PadPresence,
    pub caps: VideoCaps,
}

/// The element's description.
pub fn element_metadata() -> (r: ElementMetadata)
    ensures
        r.long_name@ == "ScreenCaptureSrc"@,
        r.classification@ == "Source/ScreenCapture"@,
        r.description@ == "Capture screen, audio and or microphone"@,
        r.author@ == "Per Johansson <per@doom.fish>"@,
{
    ElementMetadata {
        long_name: "ScreenCaptureSrc",
        classification: "Source/ScreenCapture",
        description: "Capture screen, audio and or microphone",
        author: "Per Johansson <per@doom.fish>",
    }
}

/// The element's one pad: an always-present source pad offering the video
/// format of the fixed capture settings.
pub fn src_pad_template() -> (r: PadTemplateInfo)
    ensures
        r.name@ == SRC_PAD_NAME@,
        r.direction == PadDirection::Src,
        r.presence == PadPresence::Always,
        r.caps == (VideoCaps {
            format: fixed_config().pixel_format,
            width: fixed_config().width,
            height: fixed_config().height,
        }),
{
    let config = CaptureConfig::fixed();
    PadTemplateInfo {
        name: SRC_PAD_NAME,
        direction: PadDirection::Src,
        presence: PadPresence::Always,
        caps: config.caps(),
    }
}

} // verus!
