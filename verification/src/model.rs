//! The recording lifecycle as mathematics: states, events and transitions.

use crate::shortcut::RecordingMode;
use vstd::prelude::*;

verus! {

/// A press or a release of a shortcut.
#[verifier::ext_equal]
pub struct InputView {
    pub binding_id: Seq<char>,
    pub hotkey_string: Seq<char>,
    pub is_pressed: bool,
    pub recording_mode: RecordingMode,
}

/// What the lifecycle is told.
#[verifier::ext_equal]
pub enum CommandView {
    Input(InputView),
    Cancel { recording_was_active: bool },
    ShortcutsSuspended,
    ProcessingFinished,
}

/// Where the pipeline stands.
#[verifier::ext_equal]
pub enum StageView {
    Idle,
    Recording { binding_id: Seq<char>, recording_mode: RecordingMode },
    Processing,
}

/// A release that takes effect at `deadline` unless a press cancels it.
#[verifier::ext_equal]
pub struct PendingReleaseView {
    pub binding_id: Seq<char>,
    pub hotkey_string: Seq<char>,
    pub deadline: int,
    pub recording_mode: RecordingMode,
    pub press_started_at: int,
    pub released_at: int,
}

/// Work outside the lifecycle that a transition calls for.
#[verifier::ext_equal]
pub enum WorkView {
    Nothing,
    Start { binding_id: Seq<char>, hotkey_string: Seq<char>, recording_mode: RecordingMode },
    Stop { binding_id: Seq<char>, hotkey_string: Seq<char> },
}

/// What became of an attempt to start a recording.
#[derive(Debug, Clone, Copy, PartialEq, Eq, Structural)]
pub enum StartOutcome {
    /// No action is registered for the binding.
    NoAction,
    /// The action ran, and nothing is being recorded.
    NotRecording,
    /// The action ran, and a recording is under way.
    Recording,
}

/// The ways in which a key event can be taken. A key event is taken in exactly one of them.
pub enum Reaction {
    /// The release belongs to the press that stopped a latched recording.
    ReleaseConsumed,
    /// The press takes back the release that is waiting.
    ReleaseCancelled,
    /// The release is to wait out the grace period.
    ReleaseDeferred,
    /// The press follows another one too closely.
    PressDebounced,
    /// The press starts a recording.
    Start,
    /// The press stops a recording that a short tap latched.
    StopLatched,
    /// The press stops a recording in toggle mode.
    StopToggled,
    /// The press changes nothing but the time of the last press.
    PressIgnored,
    /// The release changes nothing.
    ReleaseIgnored,
}

/// What the end of the grace period does.
pub enum GraceOutcome {
    /// The recording stops.
    Stop,
    /// The recording goes on until the next press.
    Latch,
    /// The release was for a recording that is over.
    Nothing,
}

/// What moves the lifecycle on.
#[verifier::ext_equal]
pub enum Event {
    Command(CommandView),
    /// The grace period of the waiting release is over.
    GraceElapsed,
}

/// What the surroundings contribute to one transition: the time of the event, and how the work
/// went that it called for.
pub struct Reply {
    pub now: int,
    pub start: StartOutcome,
    pub pressed_at: int,
    pub stop_action_found: bool,
}

/// The state of the lifecycle. Times are in nanoseconds.
#[verifier::ext_equal]
pub struct LifecycleView {
    pub stage: StageView,
    /// When the last press that was not debounced came.
    pub last_press: Option<int>,
    /// The release that waits out its grace period.
    pub pending_release: Option<PendingReleaseView>,
    /// The binding and the time of the press that began a tap-or-hold recording.
    pub hybrid_press_started: Option<(Seq<char>, int)>,
    /// The binding whose recording a short tap latched.
    pub latched_binding: Option<Seq<char>>,
    /// The binding whose next release means nothing.
    pub consumed_release_binding: Option<Seq<char>>,
}

impl LifecycleView {
    /// Nothing has happened yet.
    pub open spec fn initial() -> LifecycleView {
        LifecycleView {
            stage: StageView::Idle,
            last_press: None,
            pending_release: None,
            hybrid_press_started: None,
            latched_binding: None,
            consumed_release_binding: None,
        }
    }

    pub open spec fn recording_binding(self) -> Option<Seq<char>> {
        match self.stage {
            StageView::Recording { binding_id, .. } => Some(binding_id),
            _ => None,
        }
    }

    pub open spec fn recording_mode(self) -> Option<RecordingMode> {
        match self.stage {
            StageView::Recording { recording_mode, .. } => Some(recording_mode),
            _ => None,
        }
    }

    pub open spec fn pending_binding(self) -> Option<Seq<char>> {
        match self.pending_release {
            Some(pending) => Some(pending.binding_id),
            None => None,
        }
    }

    /// Whether the recording under way is the one of `binding_id`.
    pub open spec fn records(self, binding_id: Seq<char>) -> bool {
        self.recording_binding() == Some(binding_id)
    }

    /// The mode in which `input` is handled.
    pub open spec fn mode_of(self, input: InputView) -> RecordingMode {
        crate::shortcut::effective_mode(input.recording_mode, self.recording_mode())
    }

    /// Whether a press at `now` follows the last one too closely.
    pub open spec fn debounces(self, now: int) -> bool {
        match self.last_press {
            Some(pressed) => crate::timing::elapsed(pressed, now) < crate::timing::DEBOUNCE,
            None => false,
        }
    }

    /// Whether `input` is a release that has to wait out the grace period.
    pub open spec fn defers(self, input: InputView) -> bool {
        &&& !input.is_pressed
        &&& self.consumed_release_binding != Some(input.binding_id)
        &&& self.mode_of(input) != RecordingMode::Toggle
        &&& self.records(input.binding_id)
        &&& self.pending_release is None
    }

    /// How a key event at `now` is taken.
    pub open spec fn reaction(self, input: InputView, now: int) -> Reaction {
        let mode = self.mode_of(input);
        if !input.is_pressed {
            if self.consumed_release_binding == Some(input.binding_id) {
                Reaction::ReleaseConsumed
            } else if self.defers(input) {
                Reaction::ReleaseDeferred
            } else {
                Reaction::ReleaseIgnored
            }
        } else if mode != RecordingMode::Toggle && self.pending_binding() == Some(input.binding_id) {
            Reaction::ReleaseCancelled
        } else if self.debounces(now) {
            Reaction::PressDebounced
        } else if self.stage is Idle {
            Reaction::Start
        } else if self.records(input.binding_id) && mode == RecordingMode::Toggle {
            Reaction::StopToggled
        } else if self.records(input.binding_id) && mode == RecordingMode::TapOrHold
            && self.latched_binding == Some(input.binding_id) {
            Reaction::StopLatched
        } else {
            Reaction::PressIgnored
        }
    }

    /// The release of `input` at `now`, as it waits.
    pub open spec fn deferred(self, input: InputView, now: int) -> PendingReleaseView {
        PendingReleaseView {
            binding_id: input.binding_id,
            hotkey_string: input.hotkey_string,
            deadline: now + crate::timing::RELEASE_GRACE,
            recording_mode: self.mode_of(input),
            press_started_at: match self.hybrid_press_started {
                Some((binding_id, started)) if binding_id == input.binding_id => started,
                _ => now,
            },
            released_at: now,
        }
    }

    /// The state once a key event at `now` is taken, before the work that it calls for.
    pub open spec fn after_input(self, input: InputView, now: int) -> LifecycleView {
        match self.reaction(input, now) {
            Reaction::ReleaseConsumed => LifecycleView { consumed_release_binding: None, ..self },
            Reaction::ReleaseCancelled => LifecycleView { pending_release: None, ..self },
            Reaction::ReleaseDeferred => LifecycleView {
                pending_release: Some(self.deferred(input, now)),
                ..self
            },
            Reaction::PressDebounced | Reaction::ReleaseIgnored => self,
            Reaction::Start | Reaction::StopToggled | Reaction::PressIgnored => LifecycleView {
                last_press: Some(now),
                ..self
            },
            Reaction::StopLatched => LifecycleView {
                stage: self.stage,
                last_press: Some(now),
                pending_release: None,
                hybrid_press_started: None,
                latched_binding: None,
                consumed_release_binding: Some(input.binding_id),
            },
        }
    }

    /// The work that a key event at `now` calls for.
    pub open spec fn input_work(self, input: InputView, now: int) -> WorkView {
        match self.reaction(input, now) {
            Reaction::Start => WorkView::Start {
                binding_id: input.binding_id,
                hotkey_string: input.hotkey_string,
                recording_mode: self.mode_of(input),
            },
            Reaction::StopLatched | Reaction::StopToggled => WorkView::Stop {
                binding_id: input.binding_id,
                hotkey_string: input.hotkey_string,
            },
            _ => WorkView::Nothing,
        }
    }

    /// What the end of the grace period does.
    pub open spec fn grace_outcome(self) -> GraceOutcome {
        match self.pending_release {
            Some(pending) if self.records(pending.binding_id) => match pending.recording_mode {
                RecordingMode::PushToTalk => GraceOutcome::Stop,
                RecordingMode::TapOrHold => if crate::timing::elapsed(
                    pending.press_started_at,
                    pending.released_at,
                ) < crate::timing::TAP_OR_HOLD_THRESHOLD {
                    GraceOutcome::Latch
                } else {
                    GraceOutcome::Stop
                },
                RecordingMode::Toggle => GraceOutcome::Nothing,
            },
            _ => GraceOutcome::Nothing,
        }
    }

    /// The state once the grace period of the waiting release is over, before the work.
    pub open spec fn after_grace(self) -> LifecycleView {
        if self.pending_release is None {
            self
        } else {
            LifecycleView {
                pending_release: None,
                hybrid_press_started: None,
                latched_binding: if self.grace_outcome() is Latch {
                    self.pending_binding()
                } else {
                    self.latched_binding
                },
                ..self
            }
        }
    }

    /// The work that the end of the grace period calls for.
    pub open spec fn grace_work(self) -> WorkView {
        match (self.pending_release, self.grace_outcome()) {
            (Some(pending), GraceOutcome::Stop) => WorkView::Stop {
                binding_id: pending.binding_id,
                hotkey_string: pending.hotkey_string,
            },
            _ => WorkView::Nothing,
        }
    }

    /// The state after an attempt to start a recording, the key having gone down at `pressed_at`.
    pub open spec fn after_start(
        self,
        binding_id: Seq<char>,
        recording_mode: RecordingMode,
        outcome: StartOutcome,
        pressed_at: int,
    ) -> LifecycleView {
        let tap_or_hold = recording_mode == RecordingMode::TapOrHold;
        if outcome == StartOutcome::Recording {
            LifecycleView {
                stage: StageView::Recording { binding_id, recording_mode },
                hybrid_press_started: if tap_or_hold {
                    Some((binding_id, pressed_at))
                } else {
                    self.hybrid_press_started
                },
                ..self
            }
        } else if tap_or_hold {
            LifecycleView { hybrid_press_started: None, latched_binding: None, ..self }
        } else {
            self
        }
    }

    /// The state after an attempt to stop the recording: without an action it goes on.
    pub open spec fn after_stop(self, action_found: bool) -> LifecycleView {
        if action_found {
            LifecycleView { stage: StageView::Processing, ..self }
        } else {
            self
        }
    }

    /// The state with all that remembers past key events forgotten, but for the time of the last
    /// press.
    pub open spec fn forget_keys(self) -> LifecycleView {
        LifecycleView {
            pending_release: None,
            hybrid_press_started: None,
            latched_binding: None,
            consumed_release_binding: None,
            ..self
        }
    }

    /// The state after a cancellation: a recording is given up, a pipeline that is processing goes
    /// on to its end.
    pub open spec fn after_cancel(self) -> LifecycleView {
        LifecycleView {
            stage: if self.stage is Processing {
                StageView::Processing
            } else {
                StageView::Idle
            },
            ..self.forget_keys()
        }
    }

    /// The state once the pipeline has come to its end.
    pub open spec fn after_processing(self) -> LifecycleView {
        LifecycleView { stage: StageView::Idle, ..self.forget_keys() }
    }

    /// The state once an event at `now` is taken, before the work that it calls for.
    pub open spec fn take(self, event: Event, now: int) -> LifecycleView {
        match event {
            Event::Command(CommandView::Input(input)) => self.after_input(input, now),
            Event::Command(CommandView::Cancel { .. }) => self.after_cancel(),
            Event::Command(CommandView::ShortcutsSuspended) => self.forget_keys(),
            Event::Command(CommandView::ProcessingFinished) => self.after_processing(),
            Event::GraceElapsed => self.after_grace(),
        }
    }

    /// The work that an event at `now` calls for. Of the commands only a key event calls for any.
    pub open spec fn work(self, event: Event, now: int) -> WorkView {
        match event {
            Event::Command(CommandView::Input(input)) => self.input_work(input, now),
            Event::GraceElapsed => self.grace_work(),
            _ => WorkView::Nothing,
        }
    }

    /// The state once `work` is done.
    pub open spec fn settle(self, work: WorkView, reply: Reply) -> LifecycleView {
        match work {
            WorkView::Nothing => self,
            WorkView::Start { binding_id, recording_mode, .. } => self.after_start(
                binding_id,
                recording_mode,
                reply.start,
                reply.pressed_at,
            ),
            WorkView::Stop { .. } => self.after_stop(reply.stop_action_found),
        }
    }

    /// One whole transition: the event is taken, and the work that it calls for is done.
    pub open spec fn step(self, event: Event, reply: Reply) -> LifecycleView {
        self.take(event, reply.now).settle(self.work(event, reply.now), reply)
    }

    /// The state after all of `events`, each taken with the reply of the same position.
    pub open spec fn run(self, events: Seq<Event>, replies: Seq<Reply>) -> LifecycleView
        decreases events.len(),
    {
        if events.len() == 0 {
            self
        } else {
            self.run(events.drop_last(), replies).step(events.last(), replies[events.len() - 1])
        }
    }

    /// Whether what is remembered of past key events fits the stage.
    pub open spec fn well_formed(self) -> bool {
        &&& self.stage is Idle ==> self == self.forget_keys()
        &&& self.pending_release matches Some(pending) ==> {
            &&& pending.recording_mode != RecordingMode::Toggle
            &&& pending.deadline == pending.released_at + crate::timing::RELEASE_GRACE
            &&& self.stage is Recording ==> {
                &&& self.records(pending.binding_id)
                &&& self.recording_mode() == Some(pending.recording_mode)
            }
        }
        &&& self.stage is Recording ==> {
            &&& self.hybrid_press_started matches Some((binding_id, _)) ==> self.tap_or_holds(
                binding_id,
            )
            &&& self.latched_binding matches Some(binding_id) ==> self.tap_or_holds(binding_id)
            &&& self.consumed_release_binding matches Some(binding_id) ==> self.tap_or_holds(
                binding_id,
            )
        }
    }

    /// Whether the recording under way is the tap-or-hold recording of `binding_id`.
    pub open spec fn tap_or_holds(self, binding_id: Seq<char>) -> bool {
        self.stage == (StageView::Recording { binding_id, recording_mode: RecordingMode::TapOrHold })
    }
}

} // verus!
