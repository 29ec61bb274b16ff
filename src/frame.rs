use vstd::prelude::*;

verus! {

/// Status that the capture framework reports with each delivered frame.
#[derive(Clone, Copy, Debug, PartialEq, Eq, Structural)]
pub enum FrameStatus {
    /// A new frame was generated.
    Complete,
    /// No new frame: the display did not change.
    Idle,
    /// No new frame: the display is blank.
    Blank,
    /// No new frame: updates are suspended.
    Suspended,
    /// The first frame after the stream started.
    Started,
    /// The stream is in a stopped state.
    Stopped,
}

/// A delivered frame is handed on exactly when it is complete and a channel
/// to the pulling side is open.
pub open spec fn forwards(status: FrameStatus, channel_open: bool) -> bool {
    status == FrameStatus::Complete && channel_open
}

/// Decides whether a frame delivered by the capture callback is sent to the
/// pulling side.
pub fn should_forward(status: FrameStatus, channel_open: bool) -> (r: bool)
    ensures
        r == forwards(status, channel_open),
{
    match status {
        FrameStatus::Complete => channel_open,
        _ => false,
    }
}

} // verus!
