//! The coordinator: commands wait in line, and one worker takes them one at a time.

use crate::lifecycle::{Command, Input, Lifecycle, Work};
use crate::model::{CommandView, Event, InputView, LifecycleView, StartOutcome, WorkView};
use crate::shortcut::RecordingMode;
use crate::timing::{Timestamp, RELEASE_GRACE};
use std::collections::VecDeque;
use vstd::prelude::*;

verus! {

/// Whether commands can still be sent, and whether anyone still takes them.
#[derive(Debug, Clone, Copy, PartialEq, Eq, Structural)]
pub enum Link {
    /// Commands can be sent, and are taken.
    Open,
    /// No more commands can be sent; those in line are still taken.
    HungUp,
    /// The worker is gone.
    Stopped,
}

/// What the worker is to do next.
#[derive(Debug, PartialEq, Eq)]
pub enum Step {
    /// Do this work, if there is any, report how it went, and ask again.
    Perform(Work),
    /// Wait for a command, but at most this many nanoseconds, and ask again.
    Wait(u64),
    /// Wait for a command, and ask again.
    WaitForCommand,
    /// The worker's task is over.
    Exit,
}

/// The value of a [`Step`].
#[verifier::ext_equal]
pub enum StepView {
    Perform(WorkView),
    Wait(int),
    WaitForCommand,
    Exit,
}

impl View for Step {
    type V = StepView;

    open spec fn view(&self) -> StepView {
        match self {
            Step::Perform(work) => StepView::Perform(work@),
            Step::Wait(nanos) => StepView::Wait(*nanos as int),
            Step::WaitForCommand => StepView::WaitForCommand,
            Step::Exit => StepView::Exit,
        }
    }
}

/// The value of a [`TranscriptionCoordinator`].
#[verifier::ext_equal]
pub struct CoordinatorView {
    /// The commands that wait, the oldest first.
    pub commands: Seq<CommandView>,
    pub link: Link,
    pub lifecycle: LifecycleView,
    /// The work whose end the worker has yet to report.
    pub awaiting: WorkView,
}

impl CoordinatorView {
    /// No command was sent, and the lifecycle is at its beginning.
    pub open spec fn initial() -> CoordinatorView {
        CoordinatorView {
            commands: Seq::empty(),
            link: Link::Open,
            lifecycle: LifecycleView::initial(),
            awaiting: WorkView::Nothing,
        }
    }

    /// The coordinator after a command was sent: it waits behind all others, or is lost where
    /// nobody takes commands any more.
    pub open spec fn send(self, command: CommandView) -> CoordinatorView {
        if self.link == Link::Open {
            CoordinatorView { commands: self.commands.push(command), ..self }
        } else {
            self
        }
    }

    /// The event that comes next at `now`, if there is one: a command that waits goes before a
    /// grace period that is over.
    pub open spec fn next_event(self, now: int) -> Option<Event> {
        if self.link == Link::Stopped {
            None
        } else if self.commands.len() > 0 {
            Some(Event::Command(self.commands[0]))
        } else {
            match self.lifecycle.pending_release {
                Some(pending) if self.link == Link::Open && pending.deadline <= now => Some(
                    Event::GraceElapsed,
                ),
                _ => None,
            }
        }
    }

    /// The step for which the worker is told at `now`.
    pub open spec fn step(self, now: int) -> StepView {
        match (self.next_event(now), self.lifecycle.pending_release) {
            (Some(event), _) => StepView::Perform(self.lifecycle.work(event, now)),
            (None, _) if self.link != Link::Open => StepView::Exit,
            (None, Some(pending)) => StepView::Wait(pending.deadline - now),
            (None, None) => StepView::WaitForCommand,
        }
    }

    /// The coordinator once the worker was told its step at `now`.
    pub open spec fn after_poll(self, now: int) -> CoordinatorView {
        match self.next_event(now) {
            Some(event) => CoordinatorView {
                commands: if event is Command {
                    self.commands.drop_first()
                } else {
                    self.commands
                },
                link: self.link,
                lifecycle: self.lifecycle.take(event, now),
                awaiting: self.lifecycle.work(event, now),
            },
            None if self.link != Link::Open => CoordinatorView { link: Link::Stopped, ..self },
            None => self,
        }
    }

    /// The coordinator once the worker has reported how the start went that was awaited.
    pub open spec fn after_start(self, outcome: StartOutcome, pressed_at: int) -> CoordinatorView {
        CoordinatorView {
            lifecycle: self.lifecycle.after_start(
                self.awaiting->Start_binding_id,
                self.awaiting->Start_recording_mode,
                outcome,
                pressed_at,
            ),
            awaiting: WorkView::Nothing,
            ..self
        }
    }

    /// The coordinator once the worker has reported how the stop went that was awaited.
    pub open spec fn after_stop(self, action_found: bool) -> CoordinatorView {
        CoordinatorView {
            lifecycle: self.lifecycle.after_stop(action_found),
            awaiting: WorkView::Nothing,
            ..self
        }
    }

    /// The coordinator once nobody will send another command.
    pub open spec fn after_hang_up(self) -> CoordinatorView {
        CoordinatorView {
            link: if self.link == Link::Open {
                Link::HungUp
            } else {
                self.link
            },
            ..self
        }
    }

    /// The coordinator once its worker is gone.
    pub open spec fn after_worker_stopped(self) -> CoordinatorView {
        CoordinatorView {
            commands: Seq::empty(),
            link: Link::Stopped,
            awaiting: WorkView::Nothing,
            ..self
        }
    }

    /// Whether the parts fit together.
    pub open spec fn well_formed(self) -> bool {
        &&& self.lifecycle.well_formed()
        &&& self.awaiting is Start ==> self.lifecycle.stage is Idle
        &&& self.awaiting matches WorkView::Stop { binding_id, .. } ==> self.lifecycle.records(
            binding_id,
        )
        &&& self.link == Link::Stopped ==> self.commands.len() == 0
    }
}

/// Serialises all transcription lifecycle events, to eliminate race conditions between keyboard
/// shortcuts, signals, and the transcribe-paste pipeline.
///
/// Any number of parties send commands. One worker asks for its next step with
/// [`TranscriptionCoordinator::poll`], does the work that the step names, and reports how it went.
pub struct TranscriptionCoordinator {
    commands: VecDeque<Command>,
    link: Link,
    lifecycle: Lifecycle,
    awaiting: Work,
}

impl View for TranscriptionCoordinator {
    type V = CoordinatorView;

    closed spec fn view(&self) -> CoordinatorView {
        CoordinatorView {
            commands: self.commands@.map_values(|command: Command| command@),
            link: self.link,
            lifecycle: self.lifecycle@,
            awaiting: self.awaiting@,
        }
    }
}

impl TranscriptionCoordinator {
    /// A coordinator to which no command was sent.
    pub fn new() -> (coordinator: TranscriptionCoordinator)
        ensures
            coordinator@ == CoordinatorView::initial(),
            coordinator@.well_formed(),
    {
        let coordinator = TranscriptionCoordinator {
            commands: VecDeque::new(),
            link: Link::Open,
            lifecycle: Lifecycle::new(),
            awaiting: Work::Nothing,
        };
        assert(coordinator@.commands =~= Seq::<CommandView>::empty());
        coordinator
    }

    /// Puts a command behind all others, and says whether anyone will take it.
    fn send(&mut self, command: Command) -> (accepted: bool)
        ensures
            final(self)@ == old(self)@.send(command@),
            accepted == (old(self)@.link == Link::Open),
            old(self)@.well_formed() ==> final(self)@.well_formed(),
    {
        if self.link != Link::Open {
            return false;
        }
        self.commands.push_back(command);
        assert(self@.commands =~= old(self)@.commands.push(command@));
        true
    }

    /// Sends a keyboard or signal input event for a transcribe binding, and says whether anyone
    /// will take it. Signals and the command line use [`RecordingMode::Toggle`] with a press-only
    /// event.
    pub fn send_input(
        &mut self,
        binding_id: &str,
        hotkey_string: &str,
        is_pressed: bool,
        recording_mode: RecordingMode,
    ) -> (accepted: bool)
        ensures
            final(self)@ == old(self)@.send(
                CommandView::Input(
                    InputView {
                        binding_id: binding_id@,
                        hotkey_string: hotkey_string@,
                        is_pressed,
                        recording_mode,
                    },
                ),
            ),
            accepted == (old(self)@.link == Link::Open),
            old(self)@.well_formed() ==> final(self)@.well_formed(),
    {
        self.send(
            Command::Input(
                Input {
                    binding_id: binding_id.to_owned(),
                    hotkey_string: hotkey_string.to_owned(),
                    is_pressed,
                    recording_mode,
                },
            ),
        )
    }

    /// Tells that the user cancelled, and says whether anyone will take note.
    pub fn notify_cancel(&mut self, recording_was_active: bool) -> (accepted: bool)
        ensures
            final(self)@ == old(self)@.send(CommandView::Cancel { recording_was_active }),
            accepted == (old(self)@.link == Link::Open),
            old(self)@.well_formed() ==> final(self)@.well_formed(),
    {
        self.send(Command::Cancel { recording_was_active })
    }

    /// Tells that the pipeline came to its end, and says whether anyone will take note.
    pub fn notify_processing_finished(&mut self) -> (accepted: bool)
        ensures
            final(self)@ == old(self)@.send(CommandView::ProcessingFinished),
            accepted == (old(self)@.link == Link::Open),
            old(self)@.well_formed() ==> final(self)@.well_formed(),
    {
        self.send(Command::ProcessingFinished)
    }

    /// Clears transient shortcut state while shortcuts are unregistered for recording a new
    /// binding, and says whether anyone will take note. The active pipeline, if any, is left alone.
    pub fn notify_shortcuts_suspended(&mut self) -> (accepted: bool)
        ensures
            final(self)@ == old(self)@.send(CommandView::ShortcutsSuspended),
            accepted == (old(self)@.link == Link::Open),
            old(self)@.well_formed() ==> final(self)@.well_formed(),
    {
        self.send(Command::ShortcutsSuspended)
    }

    /// Tells that nobody will send another command. Those in line are still taken.
    pub fn hang_up(&mut self)
        ensures
            final(self)@ == old(self)@.after_hang_up(),
            old(self)@.well_formed() ==> final(self)@.well_formed(),
    {
        if self.link == Link::Open {
            self.link = Link::HungUp;
        }
    }

    /// Tells that the worker is gone. The commands in line are lost, and so are all later ones.
    pub fn worker_stopped(&mut self)
        ensures
            final(self)@ == old(self)@.after_worker_stopped(),
            old(self)@.well_formed() ==> final(self)@.well_formed(),
    {
        self.commands.clear();
        self.link = Link::Stopped;
        self.awaiting = Work::Nothing;
        assert(self@.commands =~= Seq::<CommandView>::empty());
    }

    /// The recording lifecycle as it stands.
    pub fn lifecycle(&self) -> (lifecycle: &Lifecycle)
        ensures
            lifecycle@ == self@.lifecycle,
    {
        &self.lifecycle
    }

    /// Whether commands can still be sent, and whether anyone still takes them.
    pub fn link(&self) -> (link: Link)
        ensures
            link == self@.link,
    {
        self.link
    }

    /// Tells the worker at `now` what to do next. A command that waits goes before a grace period
    /// that is over.
    pub fn poll(&mut self, now: Timestamp) -> (step: Step)
        requires
            old(self)@.awaiting is Nothing,
            old(self)@.next_event(now@) matches Some(
                Event::Command(CommandView::Input(input)),
            ) ==> old(self)@.lifecycle.defers(input) ==> now@ + RELEASE_GRACE <= u64::MAX,
        ensures
            final(self)@ == old(self)@.after_poll(now@),
            step@ == old(self)@.step(now@),
            old(self)@.well_formed() ==> final(self)@.well_formed(),
    {
        if self.link == Link::Stopped {
            return Step::Exit;
        }
        let work = match self.commands.pop_front() {
            Some(command) => {
                assert(old(self)@.commands[0] == command@);
                assert(self@.commands =~= old(self)@.commands.drop_first());
                self.lifecycle.handle(command, now)
            },
            None => {
                if self.link == Link::HungUp {
                    self.link = Link::Stopped;
                    return Step::Exit;
                }
                match self.lifecycle.release_deadline() {
                    None => return Step::WaitForCommand,
                    Some(deadline) => {
                        let remaining: u64 = deadline.duration_since(now);
                        if remaining > 0 {
                            return Step::Wait(remaining);
                        }
                        self.lifecycle.release_grace_elapsed()
                    },
                }
            },
        };
        self.awaiting = work.clone();
        Step::Perform(work)
    }

    /// Reports how the start that the worker was told of went, the key having gone down at
    /// `pressed_at`.
    pub fn start(&mut self, outcome: StartOutcome, pressed_at: Timestamp)
        requires
            old(self)@.awaiting is Start,
        ensures
            final(self)@ == old(self)@.after_start(outcome, pressed_at@),
            old(self)@.well_formed() ==> final(self)@.well_formed(),
    {
        if let Work::Start { binding_id, recording_mode, .. } = &self.awaiting {
            self.lifecycle.start(binding_id.as_str(), *recording_mode, outcome, pressed_at);
        }
        self.awaiting = Work::Nothing;
    }

    /// Reports whether the stop that the worker was told of found an action to run.
    pub fn stop(&mut self, action_found: bool)
        requires
            old(self)@.awaiting is Stop,
        ensures
            final(self)@ == old(self)@.after_stop(action_found),
            old(self)@.well_formed() ==> final(self)@.well_formed(),
    {
        self.lifecycle.stop(action_found);
        self.awaiting = Work::Nothing;
    }
}

} // verus!
