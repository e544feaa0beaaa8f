//! The meeting / privacy-mode status the frontend asks for.

use vstd::prelude::*;

verus! {

/// Whether a meeting is detected, the assistant is paused, a reply is being
/// spoken, and automatic meeting detection is on.
#[derive(Debug, Clone, Copy)]
pub struct MeetingStatus {
    pub meeting_active: bool,
    pub paused: bool,
    pub tts_playing: bool,
    pub detection_enabled: bool,
}

} // verus!
