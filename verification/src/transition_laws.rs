//! What each transition does to each part of the lifecycle, told by the parts themselves: the
//! stage, the times and the bindings that are remembered, and the event.

use crate::model::{
    CommandView, Event, InputView, LifecycleView, PendingReleaseView, StageView, StartOutcome,
    WorkView,
};
use crate::shortcut::RecordingMode;
use crate::timing::{DEBOUNCE, RELEASE_GRACE, TAP_OR_HOLD_THRESHOLD};
use vstd::prelude::*;

verus! {

/// In the beginning the pipeline is idle, and nothing is remembered.
pub proof fn law_nothing_is_remembered_in_the_beginning()
    ensures
        LifecycleView::initial().stage == StageView::Idle,
        LifecycleView::initial().last_press == None::<int>,
        LifecycleView::initial().pending_release == None::<PendingReleaseView>,
        LifecycleView::initial().hybrid_press_started == None::<(Seq<char>, int)>,
        LifecycleView::initial().latched_binding == None::<Seq<char>>,
        LifecycleView::initial().consumed_release_binding == None::<Seq<char>>,
{
}

/// A key event calls for a start exactly if it is a press while the pipeline is idle that does not
/// take back a waiting release and comes no sooner than the debounce period after the last press,
/// if there was one. The start is of the binding that was pressed, in the mode of the press.
pub proof fn law_which_key_events_start(state: LifecycleView, input: InputView, now: int)
    ensures
        state.input_work(input, now) is Start <==> {
            &&& input.is_pressed
            &&& state.stage is Idle
            &&& !(input.recording_mode != RecordingMode::Toggle && state.pending_release is Some
                && state.pending_release->0.binding_id == input.binding_id)
            &&& (state.last_press is None || state.last_press->0 + DEBOUNCE <= now)
        },
        state.input_work(input, now) is Start ==> state.input_work(input, now) == (
        WorkView::Start {
            binding_id: input.binding_id,
            hotkey_string: input.hotkey_string,
            recording_mode: input.recording_mode,
        }),
{
}

/// A key event calls for a stop exactly if it is a press of the binding that is recording, comes no
/// sooner than the debounce period after the last press, and either the press or the recording is
/// in toggle mode, or the recording is a tap-or-hold one that is latched and has no release
/// waiting for this press to take it back.
pub proof fn law_which_key_events_stop(state: LifecycleView, input: InputView, now: int)
    ensures
        state.input_work(input, now) is Stop <==> {
            &&& input.is_pressed
            &&& state.stage is Recording
            &&& state.stage->Recording_binding_id == input.binding_id
            &&& (state.last_press is None || state.last_press->0 + DEBOUNCE <= now)
            &&& {
                ||| input.recording_mode == RecordingMode::Toggle
                ||| state.stage->Recording_recording_mode == RecordingMode::Toggle
                ||| {
                    &&& state.stage->Recording_recording_mode == RecordingMode::TapOrHold
                    &&& state.latched_binding == Some(input.binding_id)
                    &&& (state.pending_release is None || state.pending_release->0.binding_id
                        != input.binding_id)
                }
            }
        },
        state.input_work(input, now) is Stop ==> state.input_work(input, now) == (WorkView::Stop {
            binding_id: input.binding_id,
            hotkey_string: input.hotkey_string,
        }),
{
}

/// A key event does not move the stage: that is left to the work that it calls for.
pub proof fn law_key_events_leave_the_stage(state: LifecycleView, input: InputView, now: int)
    ensures
        state.after_input(input, now).stage == state.stage,
{
}

/// A release leaves the time of the last press as it was. A press makes it its own time, unless it
/// comes sooner than the debounce period after the last press or takes back a waiting release.
pub proof fn law_only_presses_move_the_last_press(state: LifecycleView, input: InputView, now: int)
    ensures
        ({
            let after = state.after_input(input, now);
            let toggle = input.recording_mode == RecordingMode::Toggle || (state.stage is Recording
                && state.stage->Recording_recording_mode == RecordingMode::Toggle);
            let takes_back = !toggle && state.pending_release is Some
                && state.pending_release->0.binding_id == input.binding_id;
            let too_soon = state.last_press is Some && now < state.last_press->0 + DEBOUNCE;
            &&& !input.is_pressed ==> after.last_press == state.last_press
            &&& input.is_pressed && (takes_back || too_soon) ==> after.last_press
                == state.last_press
            &&& input.is_pressed && !takes_back && !too_soon ==> after.last_press == Some(now)
        }),
{
}

/// A release begins to wait exactly if it is of the binding that is recording, neither it nor the
/// recording is in toggle mode, none waits yet, and it is not the one that a stop has used up. It
/// then waits for the grace period, and remembers the press that began the recording, or else its
/// own time.
pub proof fn law_which_releases_wait(state: LifecycleView, input: InputView, now: int)
    requires
        !input.is_pressed,
    ensures
        ({
            let after = state.after_input(input, now).pending_release;
            let begins = {
                &&& state.stage is Recording
                &&& state.stage->Recording_binding_id == input.binding_id
                &&& state.stage->Recording_recording_mode != RecordingMode::Toggle
                &&& input.recording_mode != RecordingMode::Toggle
                &&& state.pending_release is None
                &&& state.consumed_release_binding != Some(input.binding_id)
            };
            &&& state.defers(input) <==> begins
            &&& !begins ==> after == state.pending_release
            &&& begins ==> {
                &&& after is Some
                &&& after->0.binding_id == input.binding_id
                &&& after->0.hotkey_string == input.hotkey_string
                &&& after->0.recording_mode == state.stage->Recording_recording_mode
                &&& after->0.released_at == now
                &&& after->0.deadline - now == RELEASE_GRACE
                &&& after->0.press_started_at == if state.hybrid_press_started is Some
                    && (state.hybrid_press_started->0).0 == input.binding_id {
                    (state.hybrid_press_started->0).1
                } else {
                    now
                }
            }
        }),
{
}

/// A press never has to wait. It takes back the waiting release of its binding exactly if neither it
/// nor the recording is in toggle mode, however soon it comes; then it does nothing else. Only a
/// stop of a latched recording ends the wait of any other release.
pub proof fn law_which_presses_take_back_a_release(
    state: LifecycleView,
    input: InputView,
    now: int,
)
    requires
        input.is_pressed,
    ensures
        ({
            let after = state.after_input(input, now);
            let work = state.input_work(input, now);
            let toggle = input.recording_mode == RecordingMode::Toggle || (state.stage is Recording
                && state.stage->Recording_recording_mode == RecordingMode::Toggle);
            let takes_back = !toggle && state.pending_release is Some
                && state.pending_release->0.binding_id == input.binding_id;
            &&& !state.defers(input)
            &&& takes_back ==> {
                &&& work is Nothing
                &&& after.pending_release is None
                &&& after.last_press == state.last_press
                &&& after.hybrid_press_started == state.hybrid_press_started
                &&& after.latched_binding == state.latched_binding
                &&& after.consumed_release_binding == state.consumed_release_binding
            }
            &&& !takes_back ==> after.pending_release == if work is Stop && !toggle {
                None
            } else {
                state.pending_release
            }
        }),
{
}

/// The press that began a tap-or-hold recording, and the latch, are forgotten by a press that stops
/// a latched recording, and by no other key event.
pub proof fn law_key_events_and_the_latch(state: LifecycleView, input: InputView, now: int)
    ensures
        ({
            let after = state.after_input(input, now);
            let stops_latched = {
                &&& state.input_work(input, now) is Stop
                &&& input.recording_mode != RecordingMode::Toggle
                &&& state.stage->Recording_recording_mode != RecordingMode::Toggle
            };
            &&& stops_latched ==> after.hybrid_press_started is None && after.latched_binding is None
            &&& !stops_latched ==> {
                &&& after.hybrid_press_started == state.hybrid_press_started
                &&& after.latched_binding == state.latched_binding
            }
        }),
{
}

/// The release that is owed nothing: a press that stops a latched recording makes the next release
/// of its binding mean nothing, that release uses this up, and no other key event changes it.
pub proof fn law_key_events_and_the_consumed_release(
    state: LifecycleView,
    input: InputView,
    now: int,
)
    ensures
        ({
            let after = state.after_input(input, now).consumed_release_binding;
            let stops_latched = {
                &&& state.input_work(input, now) is Stop
                &&& input.recording_mode != RecordingMode::Toggle
                &&& state.stage->Recording_recording_mode != RecordingMode::Toggle
            };
            let uses_up = !input.is_pressed && state.consumed_release_binding == Some(
                input.binding_id,
            );
            &&& stops_latched ==> after == Some(input.binding_id)
            &&& uses_up ==> after is None
            &&& !stops_latched && !uses_up ==> after == state.consumed_release_binding
        }),
{
}

/// The end of a grace period calls for a stop exactly if the release that waited is of the binding
/// that is recording, and was made in push-to-talk mode or in tap-or-hold mode after a hold of at
/// least the threshold. The stop is of that binding, by the hotkey of that release.
pub proof fn law_which_grace_periods_stop(state: LifecycleView)
    ensures
        ({
            let pending = state.pending_release->0;
            &&& state.grace_work() is Stop <==> {
                &&& state.pending_release is Some
                &&& state.stage is Recording
                &&& state.stage->Recording_binding_id == pending.binding_id
                &&& {
                    ||| pending.recording_mode == RecordingMode::PushToTalk
                    ||| {
                        &&& pending.recording_mode == RecordingMode::TapOrHold
                        &&& pending.released_at - pending.press_started_at >= TAP_OR_HOLD_THRESHOLD
                    }
                }
            }
            &&& state.grace_work() is Stop ==> state.grace_work() == WorkView::Stop {
                binding_id: pending.binding_id,
                hotkey_string: pending.hotkey_string,
            }
            &&& !(state.grace_work() is Start)
        }),
{
}

/// The end of a grace period latches the recording exactly if the release that waited is of the
/// binding that is recording, in tap-or-hold mode after a hold below the threshold. It forgets the
/// release and the press that began the recording, and changes nothing else: not the stage, not
/// the time of the last press, not a release that a stop has used up.
pub proof fn law_what_a_grace_period_leaves(state: LifecycleView)
    ensures
        ({
            let after = state.after_grace();
            let pending = state.pending_release->0;
            let latches = {
                &&& state.pending_release is Some
                &&& state.stage is Recording
                &&& state.stage->Recording_binding_id == pending.binding_id
                &&& pending.recording_mode == RecordingMode::TapOrHold
                &&& pending.released_at - pending.press_started_at < TAP_OR_HOLD_THRESHOLD
            };
            &&& after.stage == state.stage
            &&& after.last_press == state.last_press
            &&& after.consumed_release_binding == state.consumed_release_binding
            &&& after.pending_release is None
            &&& state.pending_release is Some ==> after.hybrid_press_started is None
            &&& state.pending_release is None ==> after.hybrid_press_started
                == state.hybrid_press_started
            &&& latches ==> after.latched_binding == Some(pending.binding_id)
            &&& !latches ==> after.latched_binding == state.latched_binding
        }),
{
}

/// The pipeline moves on to recording exactly if the start began to record, with the binding and
/// the mode of the start. Only a tap-or-hold start touches the memory of keys: one that records
/// remembers its press, one that does not forgets press and latch.
pub proof fn law_what_a_start_leaves(
    state: LifecycleView,
    binding_id: Seq<char>,
    recording_mode: RecordingMode,
    outcome: StartOutcome,
    pressed_at: int,
)
    ensures
        ({
            let after = state.after_start(binding_id, recording_mode, outcome, pressed_at);
            let records = outcome == StartOutcome::Recording;
            let tap_or_hold = recording_mode == RecordingMode::TapOrHold;
            &&& records ==> after.stage == StageView::Recording { binding_id, recording_mode }
            &&& !records ==> after.stage == state.stage
            &&& after.last_press == state.last_press
            &&& after.pending_release == state.pending_release
            &&& after.consumed_release_binding == state.consumed_release_binding
            &&& tap_or_hold && records ==> after.hybrid_press_started == Some(
                (binding_id, pressed_at),
            )
            &&& tap_or_hold && !records ==> after.hybrid_press_started is None
                && after.latched_binding is None
            &&& !tap_or_hold ==> after.hybrid_press_started == state.hybrid_press_started
            &&& !tap_or_hold || records ==> after.latched_binding == state.latched_binding
        }),
{
}

/// The pipeline moves on to processing exactly if the stop found its action. The memory of keys is
/// left alone.
pub proof fn law_what_a_stop_leaves(state: LifecycleView, action_found: bool)
    ensures
        ({
            let after = state.after_stop(action_found);
            &&& action_found ==> after.stage == StageView::Processing
            &&& !action_found ==> after.stage == state.stage
            &&& after.last_press == state.last_press
            &&& after.pending_release == state.pending_release
            &&& after.hybrid_press_started == state.hybrid_press_started
            &&& after.latched_binding == state.latched_binding
            &&& after.consumed_release_binding == state.consumed_release_binding
        }),
{
}

/// A cancellation, a suspension of shortcuts and the end of the pipeline all forget every key but
/// the time of the last press. A cancellation makes a recording pipeline idle, the end makes any
/// pipeline idle, and a suspension leaves the stage.
pub proof fn law_what_resets_leave(state: LifecycleView)
    ensures
        state.after_cancel().stage == if state.stage is Recording {
            StageView::Idle
        } else {
            state.stage
        },
        state.forget_keys().stage == state.stage,
        state.after_processing().stage == StageView::Idle,
        forall|after: LifecycleView|
            after == state.after_cancel() || after == state.forget_keys() || after
                == state.after_processing() ==> {
                &&& (#[trigger] after.last_press) == state.last_press
                &&& after.pending_release is None
                &&& after.hybrid_press_started is None
                &&& after.latched_binding is None
                &&& after.consumed_release_binding is None
            },
{
}

/// Each kind of event has its own transition, and only key events and ends of grace periods call
/// for work.
pub proof fn law_events_and_their_transitions(
    state: LifecycleView,
    input: InputView,
    recording_was_active: bool,
    now: int,
)
    ensures
        state.take(Event::Command(CommandView::Input(input)), now) == state.after_input(input, now),
        state.work(Event::Command(CommandView::Input(input)), now) == state.input_work(input, now),
        state.take(Event::Command(CommandView::Cancel { recording_was_active }), now)
            == state.after_cancel(),
        state.work(Event::Command(CommandView::Cancel { recording_was_active }), now) is Nothing,
        state.take(Event::Command(CommandView::ShortcutsSuspended), now) == state.forget_keys(),
        state.work(Event::Command(CommandView::ShortcutsSuspended), now) is Nothing,
        state.take(Event::Command(CommandView::ProcessingFinished), now)
            == state.after_processing(),
        state.work(Event::Command(CommandView::ProcessingFinished), now) is Nothing,
        state.take(Event::GraceElapsed, now) == state.after_grace(),
        state.work(Event::GraceElapsed, now) == state.grace_work(),
{
}

} // verus!
