//! How a key event on a transcribe shortcut is read.

use crate::text::{is_text, same_text};
use vstd::prelude::*;

verus! {

/// How presses and releases of a shortcut drive a recording.
#[derive(Debug, Clone, Copy, PartialEq, Eq, Structural)]
pub enum RecordingMode {
    /// Record while the key is down.
    PushToTalk,
    /// A short tap latches the recording until the next press; a longer hold records while held.
    TapOrHold,
    /// A press starts, the next press stops; releases mean nothing.
    Toggle,
}

/// What a key event means for a release that is, or could be, waiting out its grace period.
#[derive(Debug, Clone, Copy, PartialEq, Eq, Structural)]
pub enum PttAction {
    /// The event has nothing to do with a deferred release.
    Passthrough,
    /// The release is to wait out the grace period.
    DeferRelease,
    /// The press takes back the release that is waiting.
    CancelRelease,
}

/// The mode in which an event is handled: an event in toggle mode stays a toggle event, any other
/// follows the recording that is under way.
pub open spec fn effective_mode(
    input_mode: RecordingMode,
    active_recording_mode: Option<RecordingMode>,
) -> RecordingMode {
    match active_recording_mode {
        Some(active) if input_mode != RecordingMode::Toggle => active,
        _ => input_mode,
    }
}

/// Tells whether a key event defers a release, cancels a deferred one, or neither.
pub fn classify_release_event(
    pending_release_binding: Option<&str>,
    is_pressed: bool,
    recording_mode: RecordingMode,
    binding_id: &str,
    recording_binding: Option<&str>,
) -> (action: PttAction)
    ensures
        action == PttAction::CancelRelease <==> {
            &&& recording_mode != RecordingMode::Toggle
            &&& is_pressed
            &&& pending_release_binding is Some
            &&& pending_release_binding->0@ == binding_id@
        },
        action == PttAction::DeferRelease <==> {
            &&& recording_mode != RecordingMode::Toggle
            &&& !is_pressed
            &&& recording_binding is Some
            &&& recording_binding->0@ == binding_id@
            &&& pending_release_binding is None
        },
{
    if recording_mode == RecordingMode::Toggle {
        return PttAction::Passthrough;
    }
    if is_pressed {
        if is_text(pending_release_binding, binding_id) {
            PttAction::CancelRelease
        } else {
            PttAction::Passthrough
        }
    } else if is_text(recording_binding, binding_id) && pending_release_binding.is_none() {
        PttAction::DeferRelease
    } else {
        PttAction::Passthrough
    }
}

/// The mode in which an event is handled, given the mode of the recording under way, if any.
pub fn effective_recording_mode(
    input_mode: RecordingMode,
    active_recording_mode: Option<RecordingMode>,
) -> (mode: RecordingMode)
    ensures
        mode == effective_mode(input_mode, active_recording_mode),
        input_mode == RecordingMode::Toggle ==> mode == RecordingMode::Toggle,
        input_mode != RecordingMode::Toggle && active_recording_mode is Some ==> mode
            == active_recording_mode->0,
        active_recording_mode is None ==> mode == input_mode,
{
    if input_mode == RecordingMode::Toggle {
        RecordingMode::Toggle
    } else {
        active_recording_mode.unwrap_or(input_mode)
    }
}

/// Whether `id` names one of the shortcuts that record and transcribe.
pub fn is_transcribe_binding(id: &str) -> (is_transcribe: bool)
    ensures
        is_transcribe == (id@ == "transcribe"@ || id@ == "transcribe_with_post_process"@),
{
    same_text(id, "transcribe") || same_text(id, "transcribe_with_post_process")
}

} // verus!
