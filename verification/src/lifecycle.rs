//! The recording lifecycle: what each command and each elapsed grace period leads to.

use crate::model::{
    CommandView, Event, InputView, LifecycleView, PendingReleaseView, StageView, StartOutcome, WorkView,
};
use crate::shortcut::{
    classify_release_event, effective_recording_mode, PttAction, RecordingMode,
};
use crate::text::{borrow_text, is_text, same_text};
use crate::timing::{is_short_tap, Timestamp, DEBOUNCE, RELEASE_GRACE};
use vstd::prelude::*;

verus! {

/// A press or a release of a shortcut.
pub struct Input {
    pub binding_id: String,
    pub hotkey_string: String,
    pub is_pressed: bool,
    pub recording_mode: RecordingMode,
}

impl View for Input {
    type V = InputView;

    open spec fn view(&self) -> InputView {
        InputView {
            binding_id: self.binding_id@,
            hotkey_string: self.hotkey_string@,
            is_pressed: self.is_pressed,
            recording_mode: self.recording_mode,
        }
    }
}

/// What the lifecycle is told.
pub enum Command {
    Input(Input),
    Cancel { recording_was_active: bool },
    ShortcutsSuspended,
    ProcessingFinished,
}

impl View for Command {
    type V = CommandView;

    open spec fn view(&self) -> CommandView {
        match self {
            Command::Input(input) => CommandView::Input(input@),
            Command::Cancel { recording_was_active } => CommandView::Cancel {
                recording_was_active: *recording_was_active,
            },
            Command::ShortcutsSuspended => CommandView::ShortcutsSuspended,
            Command::ProcessingFinished => CommandView::ProcessingFinished,
        }
    }
}

/// Work that a transition leaves to its caller.
#[derive(Debug, PartialEq, Eq)]
pub enum Work {
    /// There is none.
    Nothing,
    /// Run the start action of the binding.
    Start { binding_id: String, hotkey_string: String, recording_mode: RecordingMode },
    /// Run the stop action of the binding.
    Stop { binding_id: String, hotkey_string: String },
}

impl View for Work {
    type V = WorkView;

    open spec fn view(&self) -> WorkView {
        match self {
            Work::Nothing => WorkView::Nothing,
            Work::Start { binding_id, hotkey_string, recording_mode } => WorkView::Start {
                binding_id: binding_id@,
                hotkey_string: hotkey_string@,
                recording_mode: *recording_mode,
            },
            Work::Stop { binding_id, hotkey_string } => WorkView::Stop {
                binding_id: binding_id@,
                hotkey_string: hotkey_string@,
            },
        }
    }
}

impl Clone for Work {
    fn clone(&self) -> (copy: Work)
        ensures
            copy@ == self@,
    {
        match self {
            Work::Nothing => Work::Nothing,
            Work::Start { binding_id, hotkey_string, recording_mode } => Work::Start {
                binding_id: binding_id.clone(),
                hotkey_string: hotkey_string.clone(),
                recording_mode: *recording_mode,
            },
            Work::Stop { binding_id, hotkey_string } => Work::Stop {
                binding_id: binding_id.clone(),
                hotkey_string: hotkey_string.clone(),
            },
        }
    }
}

/// Where the pipeline stands.
#[derive(Debug, PartialEq, Eq)]
pub enum Stage {
    Idle,
    Recording { binding_id: String, recording_mode: RecordingMode },
    Processing,
}

impl View for Stage {
    type V = StageView;

    open spec fn view(&self) -> StageView {
        match self {
            Stage::Idle => StageView::Idle,
            Stage::Recording { binding_id, recording_mode } => StageView::Recording {
                binding_id: binding_id@,
                recording_mode: *recording_mode,
            },
            Stage::Processing => StageView::Processing,
        }
    }
}

/// A release that waits out its grace period.
struct PendingRelease {
    binding_id: String,
    hotkey_string: String,
    deadline: Timestamp,
    recording_mode: RecordingMode,
    press_started_at: Timestamp,
    released_at: Timestamp,
}

impl PendingRelease {
    spec fn model(self) -> PendingReleaseView {
        PendingReleaseView {
            binding_id: self.binding_id@,
            hotkey_string: self.hotkey_string@,
            deadline: self.deadline@,
            recording_mode: self.recording_mode,
            press_started_at: self.press_started_at@,
            released_at: self.released_at@,
        }
    }
}

/// The pipeline's stage together with what is remembered of past key events.
pub struct Lifecycle {
    stage: Stage,
    last_press: Option<Timestamp>,
    pending_release: Option<PendingRelease>,
    hybrid_press_started: Option<(String, Timestamp)>,
    latched_binding: Option<String>,
    consumed_release_binding: Option<String>,
}

impl View for Lifecycle {
    type V = LifecycleView;

    closed spec fn view(&self) -> LifecycleView {
        LifecycleView {
            stage: self.stage@,
            last_press: match self.last_press {
                Some(pressed) => Some(pressed@),
                None => None,
            },
            pending_release: match self.pending_release {
                Some(pending) => Some(pending.model()),
                None => None,
            },
            hybrid_press_started: match self.hybrid_press_started {
                Some((binding_id, started)) => Some((binding_id@, started@)),
                None => None,
            },
            latched_binding: crate::text::string_chars(self.latched_binding),
            consumed_release_binding: crate::text::string_chars(self.consumed_release_binding),
        }
    }
}

impl Lifecycle {
    /// A lifecycle to which nothing has happened yet.
    pub fn new() -> (lifecycle: Lifecycle)
        ensures
            lifecycle@ == LifecycleView::initial(),
            lifecycle@.well_formed(),
    {
        Lifecycle {
            stage: Stage::Idle,
            last_press: None,
            pending_release: None,
            hybrid_press_started: None,
            latched_binding: None,
            consumed_release_binding: None,
        }
    }

    /// Where the pipeline stands.
    pub fn stage(&self) -> (stage: &Stage)
        ensures
            stage@ == self@.stage,
    {
        &self.stage
    }

    /// The binding whose recording a short tap latched, if there is one.
    pub fn latched_binding(&self) -> (binding_id: Option<&str>)
        ensures
            crate::text::chars_of(binding_id) == self@.latched_binding,
            binding_id is Some <==> self@.latched_binding is Some,
            binding_id is Some ==> binding_id->0@ == self@.latched_binding->0,
    {
        borrow_text(&self.latched_binding)
    }

    /// The binding whose next release means nothing, if there is one.
    pub fn consumed_release_binding(&self) -> (binding_id: Option<&str>)
        ensures
            crate::text::chars_of(binding_id) == self@.consumed_release_binding,
            binding_id is Some <==> self@.consumed_release_binding is Some,
            binding_id is Some ==> binding_id->0@ == self@.consumed_release_binding->0,
    {
        borrow_text(&self.consumed_release_binding)
    }

    /// The binding of the recording under way, if there is one.
    fn recording_binding(&self) -> (binding_id: Option<&str>)
        ensures
            crate::text::chars_of(binding_id) == self@.recording_binding(),
    {
        match &self.stage {
            Stage::Recording { binding_id, .. } => Some(binding_id.as_str()),
            _ => None,
        }
    }

    /// The binding of the release that waits out its grace period, if there is one.
    fn pending_binding(&self) -> (binding_id: Option<&str>)
        ensures
            crate::text::chars_of(binding_id) == self@.pending_binding(),
    {
        match &self.pending_release {
            Some(pending) => Some(pending.binding_id.as_str()),
            None => None,
        }
    }

    /// Takes a key event that came at `now`, and says what work it calls for.
    pub fn handle_input(&mut self, input: Input, now: Timestamp) -> (work: Work)
        requires
            old(self)@.defers(input@) ==> now@ + RELEASE_GRACE <= u64::MAX,
        ensures
            final(self)@ == old(self)@.after_input(input@, now@),
            work@ == old(self)@.input_work(input@, now@),
            old(self)@.well_formed() ==> final(self)@.well_formed(),
    {
        let Input { binding_id, hotkey_string, is_pressed, recording_mode } = input;
        if !is_pressed && is_text(self.consumed_release_binding(), binding_id.as_str()) {
            self.consumed_release_binding = None;
            return Work::Nothing;
        }
        // An event in toggle mode comes from the command line or a signal: it keeps its press-only
        // meaning even where a held key began the recording in another mode.
        let active_mode = effective_recording_mode(
            recording_mode,
            match &self.stage {
                Stage::Recording { recording_mode, .. } => Some(*recording_mode),
                _ => None,
            },
        );
        match classify_release_event(
            self.pending_binding(),
            is_pressed,
            active_mode,
            binding_id.as_str(),
            self.recording_binding(),
        ) {
            PttAction::CancelRelease => {
                self.pending_release = None;
                return Work::Nothing;
            },
            PttAction::DeferRelease => {
                let press_started_at = match &self.hybrid_press_started {
                    Some((id, started)) => if same_text(id.as_str(), binding_id.as_str()) {
                        *started
                    } else {
                        now
                    },
                    None => now,
                };
                self.pending_release = Some(
                    PendingRelease {
                        binding_id,
                        hotkey_string,
                        deadline: now.after(RELEASE_GRACE),
                        recording_mode: active_mode,
                        press_started_at,
                        released_at: now,
                    },
                );
                return Work::Nothing;
            },
            PttAction::Passthrough => {},
        }
        if !is_pressed {
            return Work::Nothing;
        }
        // A press right after another is key repeat or a double tap.
        if let Some(pressed) = self.last_press {
            if now.duration_since(pressed) < DEBOUNCE {
                return Work::Nothing;
            }
        }
        self.last_press = Some(now);
        let records_binding = is_text(self.recording_binding(), binding_id.as_str());
        match &self.stage {
            Stage::Idle => Work::Start { binding_id, hotkey_string, recording_mode: active_mode },
            Stage::Recording { .. } => {
                if !records_binding {
                    return Work::Nothing;
                }
                match active_mode {
                    RecordingMode::Toggle => Work::Stop { binding_id, hotkey_string },
                    RecordingMode::TapOrHold => {
                        if !is_text(self.latched_binding(), binding_id.as_str()) {
                            return Work::Nothing;
                        }
                        self.pending_release = None;
                        self.hybrid_press_started = None;
                        self.latched_binding = None;
                        self.consumed_release_binding = Some(binding_id.clone());
                        Work::Stop { binding_id, hotkey_string }
                    },
                    RecordingMode::PushToTalk => Work::Nothing,
                }
            },
            Stage::Processing => Work::Nothing,
        }
    }

    /// When the release that waits takes effect, if one waits.
    pub fn release_deadline(&self) -> (deadline: Option<Timestamp>)
        ensures
            deadline is Some <==> self@.pending_release is Some,
            deadline is Some ==> deadline->0@ == self@.pending_release->0.deadline,
    {
        match &self.pending_release {
            Some(pending) => Some(pending.deadline),
            None => None,
        }
    }

    /// Lets the release that waits take effect, and says what work it calls for.
    pub fn release_grace_elapsed(&mut self) -> (work: Work)
        ensures
            final(self)@ == old(self)@.after_grace(),
            work@ == old(self)@.grace_work(),
            old(self)@.well_formed() ==> final(self)@.well_formed(),
    {
        let pending = match self.pending_release.take() {
            Some(pending) => pending,
            None => return Work::Nothing,
        };
        self.hybrid_press_started = None;
        if !is_text(self.recording_binding(), pending.binding_id.as_str()) {
            return Work::Nothing;
        }
        match pending.recording_mode {
            RecordingMode::PushToTalk => Work::Stop {
                binding_id: pending.binding_id,
                hotkey_string: pending.hotkey_string,
            },
            RecordingMode::TapOrHold => {
                if is_short_tap(pending.press_started_at, pending.released_at) {
                    self.latched_binding = Some(pending.binding_id);
                    Work::Nothing
                } else {
                    Work::Stop {
                        binding_id: pending.binding_id,
                        hotkey_string: pending.hotkey_string,
                    }
                }
            },
            RecordingMode::Toggle => Work::Nothing,
        }
    }

    /// Takes in how the start action of a binding went, the key having gone down at `pressed_at`.
    pub fn start(
        &mut self,
        binding_id: &str,
        recording_mode: RecordingMode,
        outcome: StartOutcome,
        pressed_at: Timestamp,
    )
        ensures
            final(self)@ == old(self)@.after_start(
                binding_id@,
                recording_mode,
                outcome,
                pressed_at@,
            ),
            old(self)@.well_formed() && old(self)@.stage is Idle ==> final(self)@.well_formed(),
    {
        let recording = outcome == StartOutcome::Recording;
        if recording {
            self.stage = Stage::Recording { binding_id: binding_id.to_owned(), recording_mode };
        }
        if recording_mode == RecordingMode::TapOrHold {
            if recording {
                self.hybrid_press_started = Some((binding_id.to_owned(), pressed_at));
            } else {
                self.hybrid_press_started = None;
                self.latched_binding = None;
            }
        }
    }

    /// Takes in whether the binding that was to stop had an action: only then the pipeline moves
    /// on to processing.
    pub fn stop(&mut self, action_found: bool)
        ensures
            final(self)@ == old(self)@.after_stop(action_found),
            old(self)@.well_formed() && old(self)@.stage is Recording
                ==> final(self)@.well_formed(),
    {
        if action_found {
            self.stage = Stage::Processing;
        }
    }

    /// Forgets past key events, but for the time of the last press.
    fn forget_keys(&mut self)
        ensures
            final(self)@ == old(self)@.forget_keys(),
    {
        self.pending_release = None;
        self.hybrid_press_started = None;
        self.latched_binding = None;
        self.consumed_release_binding = None;
    }

    /// Gives up a recording. A pipeline that is processing goes on to its end.
    pub fn cancel(&mut self, recording_was_active: bool)
        ensures
            final(self)@ == old(self)@.after_cancel(),
            final(self)@.well_formed(),
    {
        self.forget_keys();
        let (processing, recording) = match &self.stage {
            Stage::Idle => (false, false),
            Stage::Recording { .. } => (false, true),
            Stage::Processing => (true, false),
        };
        if !processing && (recording_was_active || recording) {
            self.stage = Stage::Idle;
        }
    }

    /// Forgets past key events while shortcuts are suspended. The pipeline is left alone.
    pub fn shortcuts_suspended(&mut self)
        ensures
            final(self)@ == old(self)@.forget_keys(),
            final(self)@.well_formed(),
    {
        self.forget_keys();
    }

    /// Makes the pipeline idle again once it has come to its end.
    pub fn processing_finished(&mut self)
        ensures
            final(self)@ == old(self)@.after_processing(),
            final(self)@.well_formed(),
    {
        self.forget_keys();
        self.stage = Stage::Idle;
    }

    /// Takes a command at `now`, and says what work it calls for.
    pub fn handle(&mut self, command: Command, now: Timestamp) -> (work: Work)
        requires
            command@ matches CommandView::Input(input) ==> old(self)@.defers(input) ==> now@
                + RELEASE_GRACE <= u64::MAX,
        ensures
            final(self)@ == old(self)@.take(Event::Command(command@), now@),
            work@ == old(self)@.work(Event::Command(command@), now@),
            old(self)@.well_formed() ==> final(self)@.well_formed(),
    {
        match command {
            Command::Input(input) => self.handle_input(input, now),
            Command::Cancel { recording_was_active } => {
                self.cancel(recording_was_active);
                Work::Nothing
            },
            Command::ShortcutsSuspended => {
                self.shortcuts_suspended();
                Work::Nothing
            },
            Command::ProcessingFinished => {
                self.processing_finished();
                Work::Nothing
            },
        }
    }
}

} // verus!
