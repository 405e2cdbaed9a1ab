//! What holds of the recording lifecycle over one event, several, or any course of them.

use crate::model::{
    CommandView, Event, InputView, LifecycleView, Reply, StageView, StartOutcome, WorkView,
};
use crate::shortcut::RecordingMode;
use crate::timing::{DEBOUNCE, RELEASE_GRACE, TAP_OR_HOLD_THRESHOLD};
use vstd::prelude::*;

verus! {

/// The event that a key event is.
pub open spec fn key(input: InputView) -> Event {
    Event::Command(CommandView::Input(input))
}

/// Whether `event` is a cancellation or the end of the pipeline.
pub open spec fn resets(event: Event) -> bool {
    event == Event::Command(CommandView::ProcessingFinished) || event matches Event::Command(
        CommandView::Cancel { .. },
    )
}

impl LifecycleView {
    /// How many starts `events` call for.
    pub open spec fn starts(self, events: Seq<Event>, replies: Seq<Reply>) -> nat
        decreases events.len(),
    {
        if events.len() == 0 {
            0
        } else {
            let last = events.len() - 1;
            let earlier = events.drop_last();
            self.starts(earlier, replies) + if self.run(earlier, replies).work(
                events[last],
                replies[last].now,
            ) is Start {
                1nat
            } else {
                0nat
            }
        }
    }

    /// How many stops `events` call for.
    pub open spec fn stops(self, events: Seq<Event>, replies: Seq<Reply>) -> nat
        decreases events.len(),
    {
        if events.len() == 0 {
            0
        } else {
            let last = events.len() - 1;
            let earlier = events.drop_last();
            self.stops(earlier, replies) + if self.run(earlier, replies).work(
                events[last],
                replies[last].now,
            ) is Stop {
                1nat
            } else {
                0nat
            }
        }
    }

    /// Whether the key of `binding_id` holds a recording: its release is yet to come, and will
    /// mean something.
    pub open spec fn held(self, binding_id: Seq<char>) -> bool {
        &&& self.stage is Recording
        &&& self.stage->Recording_binding_id == binding_id
        &&& self.stage->Recording_recording_mode != RecordingMode::Toggle
        &&& self.pending_release is None
        &&& self.consumed_release_binding != Some(binding_id)
    }
}

/// Whatever happens, what is remembered of past key events fits the stage; in particular nothing
/// is remembered while the pipeline is idle.
pub proof fn law_memory_fits_the_stage(
    start: LifecycleView,
    events: Seq<Event>,
    replies: Seq<Reply>,
)
    requires
        start.well_formed(),
    ensures
        start.run(events, replies).well_formed(),
    decreases events.len(),
{
    if events.len() > 0 {
        law_memory_fits_the_stage(start, events.drop_last(), replies);
    }
}

/// A start is called for only where the pipeline is idle, and a stop only of the binding that is
/// recording.
pub proof fn law_work_fits_the_stage(state: LifecycleView, event: Event, now: int)
    ensures
        state.work(event, now) is Start ==> state.stage is Idle,
        state.work(event, now) matches WorkView::Stop { binding_id, .. } ==> {
            &&& state.stage is Recording
            &&& state.stage->Recording_binding_id == binding_id
        },
{
}

/// A release and the press that follows it within the grace period, as a keyboard repeats a key
/// that is held down, leave no trace: the state is as before, the time of the first press
/// included, and no work is called for.
pub proof fn law_autorepeat_pair_is_absorbed(
    state: LifecycleView,
    release: InputView,
    press: InputView,
    release_reply: Reply,
    press_reply: Reply,
)
    requires
        state.held(release.binding_id),
        press.binding_id == release.binding_id,
        !release.is_pressed && release.recording_mode != RecordingMode::Toggle,
        press.is_pressed && press.recording_mode != RecordingMode::Toggle,
    ensures
        state.work(key(release), release_reply.now) is Nothing,
        state.step(key(release), release_reply).work(key(press), press_reply.now) is Nothing,
        state.step(key(release), release_reply).step(key(press), press_reply) == state,
{
}

/// Whether `events` are releases and presses of `binding_id` in turn, as a keyboard sends them
/// while the key is held down.
pub open spec fn is_autorepeat(events: Seq<Event>, binding_id: Seq<char>) -> bool {
    &&& events.len() % 2 == 0
    &&& forall|i: int|
        0 <= i < events.len() ==> {
            &&& (#[trigger] events[i]) matches Event::Command(CommandView::Input(input))
            &&& input.binding_id == binding_id
            &&& input.recording_mode != RecordingMode::Toggle
            &&& input.is_pressed == (i % 2 == 1)
        }
}

/// A burst of repeated releases and presses of any length leaves no trace: the recording neither
/// stops nor starts anew.
pub proof fn law_autorepeat_burst_is_absorbed(
    state: LifecycleView,
    binding_id: Seq<char>,
    events: Seq<Event>,
    replies: Seq<Reply>,
)
    requires
        state.held(binding_id),
        is_autorepeat(events, binding_id),
    ensures
        state.run(events, replies) == state,
        state.starts(events, replies) == 0,
        state.stops(events, replies) == 0,
    decreases events.len(),
{
    if events.len() > 0 {
        let n = events.len() as int;
        assert(n >= 2);
        let without_press = events.drop_last();
        let earlier = without_press.drop_last();
        assert(is_autorepeat(earlier, binding_id)) by {
            assert forall|i: int| 0 <= i < earlier.len() implies {
                &&& (#[trigger] earlier[i]) matches Event::Command(CommandView::Input(input))
                &&& input.binding_id == binding_id
                &&& input.recording_mode != RecordingMode::Toggle
                &&& input.is_pressed == (i % 2 == 1)
            } by {
                assert(earlier[i] == events[i]);
            }
        }
        law_autorepeat_burst_is_absorbed(state, binding_id, earlier, replies);
        let release = events[n - 2]->Command_0->Input_0;
        let press = events[n - 1]->Command_0->Input_0;
        assert(events[n - 2] == key(release));
        assert(events[n - 1] == key(press));
        law_autorepeat_pair_is_absorbed(state, release, press, replies[n - 2], replies[n - 1]);
        assert(without_press.last() == events[n - 2]);
        assert(state.run(without_press, replies) == state.step(key(release), replies[n - 2]));
        assert(state.starts(without_press, replies) == 0);
        assert(state.stops(without_press, replies) == 0);
    }
}

/// A push-to-talk key that is released for good stops its recording once the grace period is over,
/// and only then; a grace period that ends again does nothing.
pub proof fn law_genuine_release_stops_once(
    state: LifecycleView,
    release: InputView,
    release_reply: Reply,
    grace_reply: Reply,
    later: Reply,
)
    requires
        state.held(release.binding_id),
        state.stage->Recording_recording_mode == RecordingMode::PushToTalk,
        !release.is_pressed && release.recording_mode != RecordingMode::Toggle,
        grace_reply.stop_action_found,
    ensures
        ({
            let waiting = state.step(key(release), release_reply);
            let stopped = waiting.step(Event::GraceElapsed, grace_reply);
            &&& state.work(key(release), release_reply.now) is Nothing
            &&& waiting.stage == state.stage
            &&& waiting.work(Event::GraceElapsed, grace_reply.now) == WorkView::Stop {
                binding_id: release.binding_id,
                hotkey_string: release.hotkey_string,
            }
            &&& stopped.stage is Processing
            &&& stopped.pending_release is None
            &&& stopped.work(Event::GraceElapsed, later.now) is Nothing
            &&& stopped.step(Event::GraceElapsed, later) == stopped
        }),
{
}

/// The real key-up is not swallowed: a release that waits while its recording is under way takes
/// effect when the grace period is over, as a stop or, in tap-or-hold mode, as a latch.
pub proof fn law_waiting_release_takes_effect(state: LifecycleView, reply: Reply)
    requires
        state.well_formed(),
        state.stage is Recording,
        state.pending_release is Some,
    ensures
        ({
            let pending = state.pending_release->0;
            let work = state.work(Event::GraceElapsed, reply.now);
            ||| work == WorkView::Stop {
                binding_id: pending.binding_id,
                hotkey_string: pending.hotkey_string,
            }
            ||| {
                &&& work is Nothing
                &&& state.stage == StageView::Recording {
                    binding_id: pending.binding_id,
                    recording_mode: RecordingMode::TapOrHold,
                }
                &&& state.step(Event::GraceElapsed, reply).latched_binding == Some(
                    pending.binding_id,
                )
            }
        }),
{
}

/// The lifecycle does not wedge: an idle pipeline starts with any press that is not debounced, in
/// the mode of that press.
pub proof fn law_idle_pipeline_starts(state: LifecycleView, press: InputView, now: int)
    requires
        state.well_formed(),
        state.stage is Idle,
        press.is_pressed,
        state.last_press is None || state.last_press->0 + DEBOUNCE <= now,
    ensures
        state.work(key(press), now) == (WorkView::Start {
            binding_id: press.binding_id,
            hotkey_string: press.hotkey_string,
            recording_mode: press.recording_mode,
        }),
{
}

/// A run over events in two parts is a run over the first part and then one over the second.
proof fn lemma_run_in_parts(
    state: LifecycleView,
    first: Seq<Event>,
    second: Seq<Event>,
    replies: Seq<Reply>,
)
    requires
        first.len() + second.len() <= replies.len(),
    ensures
        ({
            let middle = state.run(first, replies);
            let rest = replies.skip(first.len() as int);
            &&& state.run(first + second, replies) == middle.run(second, rest)
            &&& state.starts(first + second, replies) == state.starts(first, replies)
                + middle.starts(second, rest)
            &&& state.stops(first + second, replies) == state.stops(first, replies) + middle.stops(
                second,
                rest,
            )
        }),
    decreases second.len(),
{
    if second.len() == 0 {
        assert(first + second =~= first);
    } else {
        lemma_run_in_parts(state, first, second.drop_last(), replies);
        let whole = first + second;
        assert(whole.drop_last() =~= first + second.drop_last());
        assert(whole.last() == second.last());
        assert(replies.skip(first.len() as int)[second.len() - 1] == replies[whole.len() - 1]);
    }
}

/// Holding a push-to-talk key records once: the press starts, however often the keyboard repeats
/// the key, and the genuine release stops when its grace period is over.
pub proof fn law_holding_the_key_records_once(
    state: LifecycleView,
    press: InputView,
    burst: Seq<Event>,
    release: InputView,
    replies: Seq<Reply>,
)
    requires
        state.well_formed(),
        state.stage is Idle,
        press.is_pressed && press.recording_mode == RecordingMode::PushToTalk,
        is_autorepeat(burst, press.binding_id),
        release.binding_id == press.binding_id && !release.is_pressed,
        release.recording_mode != RecordingMode::Toggle,
        replies.len() == burst.len() + 3,
        state.last_press is None || state.last_press->0 + DEBOUNCE <= replies[0].now,
        replies[0].start == StartOutcome::Recording,
        replies[burst.len() as int + 2].stop_action_found,
    ensures
        ({
            let down = seq![key(press)] + burst;
            let up = seq![key(release), Event::GraceElapsed];
            let recording = StageView::Recording {
                binding_id: press.binding_id,
                recording_mode: RecordingMode::PushToTalk,
            };
            &&& state.run(down, replies).stage == recording
            &&& state.starts(down, replies) == 1
            &&& state.stops(down, replies) == 0
            &&& state.run(down + up, replies).stage is Processing
            &&& state.starts(down + up, replies) == 1
            &&& state.stops(down + up, replies) == 1
        }),
{
    let first = seq![key(press)];
    let down = first + burst;
    let up = seq![key(release), Event::GraceElapsed];
    let held = state.step(key(press), replies[0]);
    assert(first.drop_last() =~= Seq::<Event>::empty());
    assert(state.run(first.drop_last(), replies) == state);
    assert(state.run(first, replies) == held);
    assert(state.starts(first.drop_last(), replies) == 0);
    assert(state.stops(first.drop_last(), replies) == 0);
    lemma_run_in_parts(state, first, burst, replies);
    law_autorepeat_burst_is_absorbed(held, press.binding_id, burst, replies.skip(1));
    lemma_run_in_parts(state, down, up, replies);
    let rest = replies.skip(down.len() as int);
    let waiting = held.step(key(release), rest[0]);
    law_genuine_release_stops_once(held, release, rest[0], rest[1], rest[1]);
    let released = up.drop_last();
    assert(released =~= seq![key(release)]);
    assert(released.drop_last() =~= Seq::<Event>::empty());
    assert(held.run(released.drop_last(), rest) == held);
    assert(held.run(released, rest) == waiting);
    assert(held.starts(released.drop_last(), rest) == 0);
    assert(held.stops(released.drop_last(), rest) == 0);
    assert(held.starts(released, rest) == 0);
    assert(held.stops(released, rest) == 0);
}

/// A further release does not put off the deadline of the one that waits.
pub proof fn law_deadline_stands(state: LifecycleView, release: InputView, reply: Reply)
    requires
        state.pending_release is Some,
        !release.is_pressed,
    ensures
        state.work(key(release), reply.now) is Nothing,
        state.step(key(release), reply).pending_release == state.pending_release,
        state.step(key(release), reply).stage == state.stage,
{
}

/// In tap-or-hold mode the time between the press that began the recording and its release
/// decides: below the threshold the recording is latched and goes on, at the threshold or above
/// it stops.
pub proof fn law_threshold_tells_tap_from_hold(
    state: LifecycleView,
    pressed_at: int,
    release: InputView,
    release_reply: Reply,
    grace_reply: Reply,
)
    requires
        state.held(release.binding_id),
        state.stage->Recording_recording_mode == RecordingMode::TapOrHold,
        state.hybrid_press_started == Some((release.binding_id, pressed_at)),
        !release.is_pressed && release.recording_mode != RecordingMode::Toggle,
        pressed_at <= release_reply.now,
        grace_reply.stop_action_found,
    ensures
        ({
            let waiting = state.step(key(release), release_reply);
            let work = waiting.work(Event::GraceElapsed, grace_reply.now);
            let settled = waiting.step(Event::GraceElapsed, grace_reply);
            &&& state.work(key(release), release_reply.now) is Nothing
            &&& waiting.stage == state.stage
            &&& settled.pending_release is None
            &&& settled.hybrid_press_started is None
            &&& if release_reply.now - pressed_at < TAP_OR_HOLD_THRESHOLD {
                &&& work is Nothing
                &&& settled.stage == state.stage
                &&& settled.latched_binding == Some(release.binding_id)
            } else {
                &&& work == WorkView::Stop {
                    binding_id: release.binding_id,
                    hotkey_string: release.hotkey_string,
                }
                &&& settled.stage is Processing
                &&& settled.latched_binding == state.latched_binding
            }
        }),
{
}

/// A tap-or-hold recording begins with the time of its press remembered, and held by its key.
pub proof fn law_tap_or_hold_start_remembers_its_press(
    state: LifecycleView,
    press: InputView,
    reply: Reply,
)
    requires
        state.well_formed(),
        state.stage is Idle,
        press.is_pressed && press.recording_mode == RecordingMode::TapOrHold,
        state.last_press is None || state.last_press->0 + DEBOUNCE <= reply.now,
        reply.start == StartOutcome::Recording,
    ensures
        state.work(key(press), reply.now) == (WorkView::Start {
            binding_id: press.binding_id,
            hotkey_string: press.hotkey_string,
            recording_mode: RecordingMode::TapOrHold,
        }),
        ({
            let recording = state.step(key(press), reply);
            &&& recording.held(press.binding_id)
            &&& recording.stage == StageView::Recording {
                binding_id: press.binding_id,
                recording_mode: RecordingMode::TapOrHold,
            }
            &&& recording.hybrid_press_started == Some((press.binding_id, reply.pressed_at))
            &&& recording.latched_binding is None
        }),
{
}

/// A latched recording stops with the next press of its key, and the release of that press means
/// nothing.
pub proof fn law_second_press_stops_a_latched_recording(
    state: LifecycleView,
    press: InputView,
    release: InputView,
    press_reply: Reply,
    release_reply: Reply,
)
    requires
        state.stage == (StageView::Recording {
            binding_id: press.binding_id,
            recording_mode: RecordingMode::TapOrHold,
        }),
        state.latched_binding == Some(press.binding_id),
        state.pending_release is None || state.pending_release->0.binding_id != press.binding_id,
        press.is_pressed && press.recording_mode != RecordingMode::Toggle,
        state.last_press is None || state.last_press->0 + DEBOUNCE <= press_reply.now,
        press_reply.stop_action_found,
        release.binding_id == press.binding_id && !release.is_pressed,
    ensures
        ({
            let stopped = state.step(key(press), press_reply);
            let released = stopped.step(key(release), release_reply);
            &&& state.work(key(press), press_reply.now) == WorkView::Stop {
                binding_id: press.binding_id,
                hotkey_string: press.hotkey_string,
            }
            &&& stopped.stage is Processing
            &&& stopped.latched_binding is None
            &&& stopped.consumed_release_binding == Some(press.binding_id)
            &&& stopped.work(key(release), release_reply.now) is Nothing
            &&& released == LifecycleView { consumed_release_binding: None, ..stopped }
        }),
{
}

/// A cancellation gives up a recording, held or latched, and forgets past key events; a pipeline
/// that is processing goes on. It calls for no work, it does not matter whether a recording was
/// said to be active, and to cancel again changes nothing.
pub proof fn law_cancel(
    state: LifecycleView,
    recording_was_active: bool,
    said_otherwise: bool,
    reply: Reply,
)
    ensures
        ({
            let cancel = Event::Command(CommandView::Cancel { recording_was_active });
            let other = Event::Command(CommandView::Cancel { recording_was_active: said_otherwise });
            let cancelled = state.step(cancel, reply);
            &&& state.work(cancel, reply.now) is Nothing
            &&& state.stage is Recording ==> cancelled.stage is Idle
            &&& !(state.stage is Recording) ==> cancelled.stage == state.stage
            &&& cancelled.pending_release is None
            &&& cancelled.hybrid_press_started is None
            &&& cancelled.latched_binding is None
            &&& cancelled.consumed_release_binding is None
            &&& cancelled.last_press == state.last_press
            &&& state.step(other, reply) == cancelled
            &&& cancelled.step(cancel, reply) == cancelled
        }),
{
}

/// While shortcuts are suspended past key events are forgotten, and the pipeline is left alone.
pub proof fn law_suspension_leaves_the_pipeline_alone(state: LifecycleView, reply: Reply)
    ensures
        ({
            let suspend = Event::Command(CommandView::ShortcutsSuspended);
            let suspended = state.step(suspend, reply);
            &&& state.work(suspend, reply.now) is Nothing
            &&& suspended.stage == state.stage
            &&& suspended.last_press == state.last_press
            &&& suspended.pending_release is None
            &&& suspended.hybrid_press_started is None
            &&& suspended.latched_binding is None
            &&& suspended.consumed_release_binding is None
        }),
{
}

/// Once the pipeline has come to its end the lifecycle is as new, but for the time of the last
/// press.
pub proof fn law_finish_starts_afresh(state: LifecycleView, reply: Reply)
    ensures
        state.work(Event::Command(CommandView::ProcessingFinished), reply.now) is Nothing,
        state.step(Event::Command(CommandView::ProcessingFinished), reply) == (LifecycleView {
            last_press: state.last_press,
            ..LifecycleView::initial()
        }),
{
}

/// A recording begins only through a start that was called for, and in the mode of that start.
pub proof fn law_recording_begins_with_a_start(state: LifecycleView, event: Event, reply: Reply)
    requires
        !(state.stage is Recording),
        state.step(event, reply).stage is Recording,
    ensures
        reply.start == StartOutcome::Recording,
        state.work(event, reply.now) matches WorkView::Start { binding_id, recording_mode, .. }
            && state.step(event, reply).stage == (StageView::Recording {
            binding_id,
            recording_mode,
        }),
{
}

/// While a recording is under way, and until it is cancelled or the pipeline ends, no other starts;
/// it stays as it began until it stops.
pub proof fn law_recording_starts_once(
    state: LifecycleView,
    events: Seq<Event>,
    replies: Seq<Reply>,
)
    requires
        state.stage is Recording,
        forall|i: int| 0 <= i < events.len() ==> !resets(#[trigger] events[i]),
    ensures
        state.starts(events, replies) == 0,
        state.run(events, replies).stage == state.stage || state.run(events, replies).stage
            is Processing,
        state.run(events, replies).stage is Processing ==> state.stops(events, replies) > 0,
    decreases events.len(),
{
    if events.len() > 0 {
        let last = events.len() - 1;
        let earlier = events.drop_last();
        assert forall|i: int| 0 <= i < earlier.len() implies !resets(#[trigger] earlier[i]) by {
            assert(earlier[i] == events[i]);
        }
        law_recording_starts_once(state, earlier, replies);
        assert(!resets(events[last]));
    }
}

/// Where every stop finds its action, a recording that is under way stops at most once until it is
/// cancelled or the pipeline ends, and with the stop the pipeline moves on to processing.
pub proof fn law_recording_stops_once(
    state: LifecycleView,
    events: Seq<Event>,
    replies: Seq<Reply>,
)
    requires
        state.stage is Recording,
        forall|i: int| 0 <= i < events.len() ==> !resets(#[trigger] events[i]),
        forall|i: int| 0 <= i < events.len() ==> (#[trigger] replies[i]).stop_action_found,
    ensures
        state.stops(events, replies) <= 1,
        state.stops(events, replies) == 1 <==> state.run(events, replies).stage is Processing,
    decreases events.len(),
{
    if events.len() > 0 {
        let last = events.len() - 1;
        let earlier = events.drop_last();
        assert forall|i: int| 0 <= i < earlier.len() implies !resets(#[trigger] earlier[i]) by {
            assert(earlier[i] == events[i]);
        }
        law_recording_stops_once(state, earlier, replies);
        law_recording_starts_once(state, earlier, replies);
        assert(!resets(events[last]));
        assert(replies[last].stop_action_found);
    }
}

/// A pipeline that is processing is not disturbed: until it comes to its end no work is called
/// for, and cancelling does not reset it.
pub proof fn law_processing_is_not_disturbed(
    state: LifecycleView,
    events: Seq<Event>,
    replies: Seq<Reply>,
)
    requires
        state.stage is Processing,
        forall|i: int|
            0 <= i < events.len() ==> #[trigger] events[i] != Event::Command(
                CommandView::ProcessingFinished,
            ),
    ensures
        state.run(events, replies).stage is Processing,
        state.starts(events, replies) == 0,
        state.stops(events, replies) == 0,
    decreases events.len(),
{
    if events.len() > 0 {
        let last = events.len() - 1;
        let earlier = events.drop_last();
        assert forall|i: int| 0 <= i < earlier.len() implies #[trigger] earlier[i]
            != Event::Command(CommandView::ProcessingFinished) by {
            assert(earlier[i] == events[i]);
        }
        law_processing_is_not_disturbed(state, earlier, replies);
        assert(events[last] != Event::Command(CommandView::ProcessingFinished));
    }
}

/// An event in toggle mode is press-only: its release changes nothing but to use up a release that
/// was owed, and its press starts an idle pipeline or stops the recording of its binding, in
/// whatever mode that began.
pub proof fn law_toggle_is_press_only(state: LifecycleView, input: InputView, reply: Reply)
    requires
        input.recording_mode == RecordingMode::Toggle,
    ensures
        !input.is_pressed ==> {
            &&& state.work(key(input), reply.now) is Nothing
            &&& state.step(key(input), reply) == LifecycleView {
                consumed_release_binding: if state.consumed_release_binding == Some(
                    input.binding_id,
                ) {
                    None
                } else {
                    state.consumed_release_binding
                },
                ..state
            }
        },
        input.is_pressed && (state.last_press is None || state.last_press->0 + DEBOUNCE
            <= reply.now) && state.stage is Idle ==> state.work(key(input), reply.now) == (
        WorkView::Start {
            binding_id: input.binding_id,
            hotkey_string: input.hotkey_string,
            recording_mode: RecordingMode::Toggle,
        }),
        input.is_pressed && (state.last_press is None || state.last_press->0 + DEBOUNCE
            <= reply.now) && state.stage is Recording && state.stage->Recording_binding_id
            == input.binding_id ==> state.work(key(input), reply.now) == (WorkView::Stop {
            binding_id: input.binding_id,
            hotkey_string: input.hotkey_string,
        }),
{
}

/// A press too soon after one that counted does nothing, except that it may take back a release
/// that waits.
pub proof fn law_presses_are_debounced(state: LifecycleView, press: InputView, reply: Reply)
    requires
        press.is_pressed,
        state.last_press is Some,
        state.last_press->0 <= reply.now < state.last_press->0 + DEBOUNCE,
    ensures
        state.work(key(press), reply.now) is Nothing,
        state.step(key(press), reply) == state || state.step(key(press), reply) == (LifecycleView {
            pending_release: None,
            ..state
        }),
        state.pending_release is None || state.pending_release->0.binding_id != press.binding_id
            ==> state.step(key(press), reply) == state,
{
}

/// Every press that starts or stops a recording counts for the debouncing of the next.
pub proof fn law_working_presses_count(state: LifecycleView, press: InputView, reply: Reply)
    requires
        press.is_pressed,
        !(state.work(key(press), reply.now) is Nothing),
    ensures
        state.step(key(press), reply).last_press == Some(reply.now),
        state.last_press is None || state.last_press->0 + DEBOUNCE <= reply.now,
{
}

/// A press of another binding than the one that is recording does nothing but count for the
/// debouncing of the next.
pub proof fn law_busy_pipeline_ignores_other_bindings(
    state: LifecycleView,
    press: InputView,
    reply: Reply,
)
    requires
        state.well_formed(),
        state.stage is Recording,
        state.stage->Recording_binding_id != press.binding_id,
        press.is_pressed,
    ensures
        state.work(key(press), reply.now) is Nothing,
        state.step(key(press), reply) == (LifecycleView {
            last_press: if state.last_press is Some && reply.now < state.last_press->0 + DEBOUNCE {
                state.last_press
            } else {
                Some(reply.now)
            },
            ..state
        }),
{
}

/// A start that does not begin to record leaves the pipeline idle, with nothing remembered.
pub proof fn law_failed_start_stays_idle(state: LifecycleView, press: InputView, reply: Reply)
    requires
        state.well_formed(),
        state.work(key(press), reply.now) is Start,
        reply.start != StartOutcome::Recording,
    ensures
        state.step(key(press), reply) == (LifecycleView { last_press: Some(reply.now), ..state }),
        state.step(key(press), reply).stage is Idle,
{
}

/// Whether `event` is a press of any binding.
pub open spec fn is_press(event: Event) -> bool {
    event matches Event::Command(CommandView::Input(input)) && input.is_pressed
}

/// The key-downs that a keyboard repeats while a key is held do not stop its recording: while a
/// recording is under way in push-to-talk mode, or in tap-or-hold mode without a latch, presses
/// that are not in toggle mode, of whatever bindings, however many and at whatever times, call for
/// no work and leave the stage.
pub proof fn law_repeated_presses_do_not_stop(
    state: LifecycleView,
    events: Seq<Event>,
    replies: Seq<Reply>,
)
    requires
        state.stage is Recording,
        state.stage->Recording_recording_mode == RecordingMode::PushToTalk || (
        state.stage->Recording_recording_mode == RecordingMode::TapOrHold
            && state.latched_binding is None),
        forall|i: int|
            0 <= i < events.len() ==> {
                &&& (#[trigger] events[i]) matches Event::Command(CommandView::Input(input))
                &&& input.is_pressed
                &&& input.recording_mode != RecordingMode::Toggle
            },
    ensures
        state.starts(events, replies) == 0,
        state.stops(events, replies) == 0,
        state.run(events, replies).stage == state.stage,
        state.run(events, replies).latched_binding == state.latched_binding,
    decreases events.len(),
{
    if events.len() > 0 {
        let last = events.len() - 1;
        let earlier = events.drop_last();
        assert forall|i: int| 0 <= i < earlier.len() implies {
            &&& (#[trigger] earlier[i]) matches Event::Command(CommandView::Input(input))
            &&& input.is_pressed
            &&& input.recording_mode != RecordingMode::Toggle
        } by {
            assert(earlier[i] == events[i]);
        }
        law_repeated_presses_do_not_stop(state, earlier, replies);
        assert(events[last] matches Event::Command(CommandView::Input(input)) && input.is_pressed
            && input.recording_mode != RecordingMode::Toggle);
    }
}

/// In toggle mode a press starts and the next stops, and what tells the next from a bounce is the
/// debounce period alone: a second press sooner than that changes nothing, one at that distance or
/// any greater one stops.
pub proof fn law_second_toggle_press_stops(
    state: LifecycleView,
    first: InputView,
    second: InputView,
    first_reply: Reply,
    second_reply: Reply,
)
    requires
        state.stage is Idle,
        state.last_press is None || state.last_press->0 + DEBOUNCE <= first_reply.now,
        first.is_pressed && first.recording_mode == RecordingMode::Toggle,
        second.is_pressed && second.binding_id == first.binding_id,
        first_reply.start == StartOutcome::Recording,
        second_reply.stop_action_found,
    ensures
        ({
            let recording = state.step(key(first), first_reply);
            let work = recording.work(key(second), second_reply.now);
            let after = recording.step(key(second), second_reply);
            &&& state.work(key(first), first_reply.now) == WorkView::Start {
                binding_id: first.binding_id,
                hotkey_string: first.hotkey_string,
                recording_mode: RecordingMode::Toggle,
            }
            &&& recording.stage is Recording
            &&& second_reply.now < first_reply.now + DEBOUNCE ==> work is Nothing && after
                == recording
            &&& second_reply.now >= first_reply.now + DEBOUNCE ==> {
                &&& work == WorkView::Stop {
                    binding_id: second.binding_id,
                    hotkey_string: second.hotkey_string,
                }
                &&& after.stage is Processing
            }
        }),
{
}

/// The time of the last press is that of a press: over any course of events it is the one from
/// before, or the time of a press among the events. Where no event is a press, it is the one from
/// before.
pub proof fn law_last_press_is_of_a_press(
    state: LifecycleView,
    events: Seq<Event>,
    replies: Seq<Reply>,
)
    ensures
        ({
            let last_press = state.run(events, replies).last_press;
            last_press == state.last_press || exists|i: int|
                {
                    &&& 0 <= i < events.len()
                    &&& is_press(#[trigger] events[i])
                    &&& last_press == Some(replies[i].now)
                }
        }),
    decreases events.len(),
{
    if events.len() > 0 {
        let last = events.len() - 1;
        let earlier = events.drop_last();
        law_last_press_is_of_a_press(state, earlier, replies);
        let before = state.run(earlier, replies).last_press;
        let after = state.run(events, replies).last_press;
        if after == before && before != state.last_press {
            let i = choose|i: int|
                {
                    &&& 0 <= i < earlier.len()
                    &&& is_press(#[trigger] earlier[i])
                    &&& before == Some(replies[i].now)
                };
            assert(events[i] == earlier[i]);
        } else if after != before {
            assert(is_press(events[last]));
            assert(after == Some(replies[last].now));
        }
    }
}

/// One can always dictate again: whatever happened since the beginning, where the pipeline is idle
/// a press that comes at least the debounce period after every press before calls for a start.
pub proof fn law_one_can_dictate_again(
    events: Seq<Event>,
    replies: Seq<Reply>,
    press: InputView,
    now: int,
)
    requires
        LifecycleView::initial().run(events, replies).stage is Idle,
        press.is_pressed,
        forall|i: int|
            0 <= i < events.len() && is_press(#[trigger] events[i]) ==> replies[i].now + DEBOUNCE
                <= now,
    ensures
        LifecycleView::initial().run(events, replies).work(key(press), now) == (WorkView::Start {
            binding_id: press.binding_id,
            hotkey_string: press.hotkey_string,
            recording_mode: press.recording_mode,
        }),
{
    law_memory_fits_the_stage(LifecycleView::initial(), events, replies);
    law_last_press_is_of_a_press(LifecycleView::initial(), events, replies);
}

/// From the beginning on, whatever happens: while the pipeline is idle nothing is remembered but
/// the last press; a waiting release is of the recording under way and of its mode, with the grace
/// period from release to deadline; and the press that is remembered, the latch and the release
/// that means nothing are all of the recording under way, which is a tap-or-hold one.
pub proof fn law_what_can_be_remembered(events: Seq<Event>, replies: Seq<Reply>)
    ensures
        ({
            let state = LifecycleView::initial().run(events, replies);
            let binding_id = state.stage->Recording_binding_id;
            let mode = state.stage->Recording_recording_mode;
            &&& state.stage is Idle ==> {
                &&& state.pending_release is None
                &&& state.hybrid_press_started is None
                &&& state.latched_binding is None
                &&& state.consumed_release_binding is None
            }
            &&& state.pending_release is Some ==> {
                &&& state.pending_release->0.deadline - state.pending_release->0.released_at
                    == RELEASE_GRACE
                &&& state.pending_release->0.recording_mode != RecordingMode::Toggle
            }
            &&& state.stage is Recording && state.pending_release is Some ==> {
                &&& state.pending_release->0.binding_id == binding_id
                &&& state.pending_release->0.recording_mode == mode
            }
            &&& state.stage is Recording && mode != RecordingMode::TapOrHold ==> {
                &&& state.hybrid_press_started is None
                &&& state.latched_binding is None
                &&& state.consumed_release_binding is None
            }
            &&& state.stage is Recording && state.hybrid_press_started is Some ==> (
            state.hybrid_press_started->0).0 == binding_id
            &&& state.stage is Recording && state.latched_binding is Some
                ==> state.latched_binding->0 == binding_id
            &&& state.stage is Recording && state.consumed_release_binding is Some
                ==> state.consumed_release_binding->0 == binding_id
        }),
{
    law_memory_fits_the_stage(LifecycleView::initial(), events, replies);
}

} // verus!
