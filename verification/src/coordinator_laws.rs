//! What holds of the coordinator: commands are taken one at a time, in the order of their sending.

use crate::coordinator::{CoordinatorView, Link, Step, StepView};
use crate::lifecycle::{Command, Input, Stage, Work};
use crate::model::{
    CommandView, Event, InputView, LifecycleView, Reply, StageView, StartOutcome, WorkView,
};
use crate::timing::Timestamp;
use vstd::prelude::*;

verus! {

/// Something that is done to a coordinator.
pub enum CoordinatorOperation {
    Send(CommandView),
    HangUp,
    WorkerStopped,
    /// The worker asks for its step, does the work, and reports.
    Serve(Reply),
}

/// The events that `commands` are.
pub open spec fn events_of(commands: Seq<CommandView>) -> Seq<Event> {
    commands.map_values(|command: CommandView| Event::Command(command))
}

impl CoordinatorView {
    /// The coordinator once the worker has reported how the work went that was awaited.
    pub open spec fn report(self, reply: Reply) -> CoordinatorView {
        match self.awaiting {
            WorkView::Nothing => self,
            WorkView::Start { .. } => self.after_start(reply.start, reply.pressed_at),
            WorkView::Stop { .. } => self.after_stop(reply.stop_action_found),
        }
    }

    /// The coordinator once the worker has asked for its step, done the work, and reported.
    pub open spec fn serve(self, reply: Reply) -> CoordinatorView {
        self.after_poll(reply.now).report(reply)
    }

    /// The coordinator once the worker has done so with each of `replies`.
    pub open spec fn serve_all(self, replies: Seq<Reply>) -> CoordinatorView
        decreases replies.len(),
    {
        if replies.len() == 0 {
            self
        } else {
            self.serve_all(replies.drop_last()).serve(replies.last())
        }
    }

    /// The coordinator after all of `commands` were sent.
    pub open spec fn send_all(self, commands: Seq<CommandView>) -> CoordinatorView
        decreases commands.len(),
    {
        if commands.len() == 0 {
            self
        } else {
            self.send_all(commands.drop_last()).send(commands.last())
        }
    }

    /// The coordinator after one operation.
    pub open spec fn apply(self, operation: CoordinatorOperation) -> CoordinatorView {
        match operation {
            CoordinatorOperation::Send(command) => self.send(command),
            CoordinatorOperation::HangUp => self.after_hang_up(),
            CoordinatorOperation::WorkerStopped => self.after_worker_stopped(),
            CoordinatorOperation::Serve(reply) => self.serve(reply),
        }
    }

    /// The coordinator after all of `operations`.
    pub open spec fn run(self, operations: Seq<CoordinatorOperation>) -> CoordinatorView
        decreases operations.len(),
    {
        if operations.len() == 0 {
            self
        } else {
            self.run(operations.drop_last()).apply(operations.last())
        }
    }
}

/// Whatever is done to a coordinator, in whatever order, its parts fit together.
pub proof fn law_coordinator_stays_well_formed(
    start: CoordinatorView,
    operations: Seq<CoordinatorOperation>,
)
    requires
        start.well_formed(),
        start.awaiting is Nothing,
    ensures
        start.run(operations).well_formed(),
        start.run(operations).awaiting is Nothing,
    decreases operations.len(),
{
    if operations.len() > 0 {
        law_coordinator_stays_well_formed(start, operations.drop_last());
    }
}

/// Commands wait in the order of their sending, behind those that were sent before.
pub proof fn law_commands_wait_in_order(start: CoordinatorView, commands: Seq<CommandView>)
    requires
        start.link == Link::Open,
    ensures
        start.send_all(commands) == (CoordinatorView {
            commands: start.commands + commands,
            ..start
        }),
    decreases commands.len(),
{
    if commands.len() > 0 {
        law_commands_wait_in_order(start, commands.drop_last());
        assert((start.commands + commands.drop_last()).push(commands.last()) =~= start.commands
            + commands);
    } else {
        assert(start.commands + commands =~= start.commands);
    }
}

/// The commands that wait are taken one at a time, the oldest first, each with its work done
/// before the next: the lifecycle goes through exactly the transitions of the commands in order.
pub proof fn law_commands_are_taken_in_order(start: CoordinatorView, replies: Seq<Reply>)
    requires
        start.link != Link::Stopped,
        start.awaiting is Nothing,
        replies.len() <= start.commands.len(),
    ensures
        start.serve_all(replies) == (CoordinatorView {
            commands: start.commands.skip(replies.len() as int),
            lifecycle: start.lifecycle.run(
                events_of(start.commands.take(replies.len() as int)),
                replies,
            ),
            ..start
        }),
    decreases replies.len(),
{
    let n = replies.len() as int;
    if n == 0 {
        assert(start.commands.skip(0) =~= start.commands);
    } else {
        let earlier = replies.drop_last();
        law_commands_are_taken_in_order(start, earlier);
        let events = events_of(start.commands.take(n));
        assert(events.drop_last() =~= events_of(start.commands.take(n - 1)));
        assert(events.last() == Event::Command(start.commands[n - 1]));
        assert(start.commands.skip(n - 1)[0] == start.commands[n - 1]);
        assert(start.commands.skip(n - 1).drop_first() =~= start.commands.skip(n));
        lemma_run_reads_as_many_replies(
            start.lifecycle,
            events.drop_last(),
            earlier,
            replies,
        );
    }
}

/// A run depends only on the replies to its events.
proof fn lemma_run_reads_as_many_replies(
    state: LifecycleView,
    events: Seq<Event>,
    replies: Seq<Reply>,
    more: Seq<Reply>,
)
    requires
        events.len() <= replies.len() <= more.len(),
        forall|i: int| 0 <= i < replies.len() ==> replies[i] == more[i],
    ensures
        state.run(events, replies) == state.run(events, more),
    decreases events.len(),
{
    if events.len() > 0 {
        lemma_run_reads_as_many_replies(state, events.drop_last(), replies, more);
        assert(replies[events.len() - 1] == more[events.len() - 1]);
    }
}

/// All that was sent to a fresh coordinator is taken in the order of sending.
pub proof fn law_sent_commands_are_serialised(commands: Seq<CommandView>, replies: Seq<Reply>)
    requires
        replies.len() == commands.len(),
    ensures
        CoordinatorView::initial().send_all(commands).serve_all(replies) == (CoordinatorView {
            lifecycle: LifecycleView::initial().run(events_of(commands), replies),
            ..CoordinatorView::initial()
        }),
{
    let start = CoordinatorView::initial();
    law_commands_wait_in_order(start, commands);
    assert(start.commands + commands =~= commands);
    law_commands_are_taken_in_order(start.send_all(commands), replies);
    assert(commands.take(commands.len() as int) =~= commands);
    assert(commands.skip(commands.len() as int) =~= Seq::<CommandView>::empty());
}

/// It does not matter whether a command is sent before or after the worker takes an older one.
pub proof fn law_sending_does_not_disturb_the_worker(
    state: CoordinatorView,
    command: CommandView,
    reply: Reply,
)
    requires
        state.link == Link::Open,
        state.commands.len() > 0,
    ensures
        state.send(command).step(reply.now) == state.step(reply.now),
        state.send(command).serve(reply) == state.serve(reply).send(command),
{
    assert(state.commands.push(command).drop_first() =~= state.commands.drop_first().push(command));
}

/// A release that waits takes effect at its deadline: where the worker is told to wait, it would
/// be told to wait for the rest until then, and would then be told to go on. A command that comes
/// earlier, or at the same time, is taken first.
pub proof fn law_wait_ends_at_the_deadline(
    state: CoordinatorView,
    now: int,
    later: int,
    command: CommandView,
)
    requires
        state.step(now) is Wait,
        now <= later,
    ensures
        ({
            let wait = state.step(now)->Wait_0;
            &&& wait > 0
            &&& state.after_poll(now) == state
            &&& later < now + wait ==> state.step(later) == StepView::Wait(now + wait - later)
            &&& later >= now + wait ==> state.next_event(later) == Some(Event::GraceElapsed)
            &&& state.send(command).next_event(later) == Some(Event::Command(command))
        }),
{
}

/// Once the worker is gone, commands are lost, and there is nothing to do.
pub proof fn law_stopped_coordinator_stays_stopped(
    state: CoordinatorView,
    command: CommandView,
    now: int,
)
    requires
        state.link == Link::Stopped,
    ensures
        state.send(command) == state,
        state.step(now) is Exit,
        state.after_poll(now) == state,
        state.after_hang_up() == state,
{
}

/// After the last sender is gone, the commands in line are still taken; then the worker is done,
/// and a release that still waits no longer takes effect.
pub proof fn law_hang_up_lets_the_line_run_out(start: CoordinatorView, replies: Seq<Reply>, now: int)
    requires
        start.link == Link::Open,
        start.awaiting is Nothing,
        replies.len() == start.commands.len(),
    ensures
        start.after_hang_up().serve_all(replies).lifecycle == start.lifecycle.run(
            events_of(start.commands),
            replies,
        ),
        start.after_hang_up().serve_all(replies).step(now) is Exit,
        start.after_hang_up().serve_all(replies).after_poll(now).link == Link::Stopped,
        start.after_hang_up().serve_all(replies).after_poll(now).lifecycle
            == start.after_hang_up().serve_all(replies).lifecycle,
{
    law_commands_are_taken_in_order(start.after_hang_up(), replies);
    assert(start.commands.take(start.commands.len() as int) =~= start.commands);
}

/// In the beginning no command waits, commands can be sent, and nothing is awaited.
pub proof fn law_coordinator_in_the_beginning()
    ensures
        CoordinatorView::initial().commands.len() == 0,
        CoordinatorView::initial().link == Link::Open,
        CoordinatorView::initial().lifecycle == LifecycleView::initial(),
        CoordinatorView::initial().awaiting == WorkView::Nothing,
{
}

/// A command that is sent over an open link is the last in line, behind all that were there, and
/// over any other link it is lost. Nothing else changes.
pub proof fn law_what_sending_leaves(state: CoordinatorView, command: CommandView)
    ensures
        ({
            let after = state.send(command);
            &&& after.link == state.link
            &&& after.lifecycle == state.lifecycle
            &&& after.awaiting == state.awaiting
            &&& state.link != Link::Open ==> after.commands == state.commands
            &&& state.link == Link::Open ==> {
                &&& after.commands.len() == state.commands.len() + 1
                &&& after.commands[state.commands.len() as int] == command
                &&& forall|i: int|
                    0 <= i < state.commands.len() ==> after.commands[i] == state.commands[i]
            }
        }),
{
}

/// While a release waits, in whatever mode, and no command does, the worker of an open link waits
/// for just the time that is left to the deadline; from the deadline on it is told the work that
/// the end of the grace period calls for.
pub proof fn law_worker_wakes_for_a_waiting_release(state: CoordinatorView, now: int)
    requires
        state.link == Link::Open,
        state.commands.len() == 0,
        state.lifecycle.pending_release is Some,
    ensures
        ({
            let deadline = state.lifecycle.pending_release->0.deadline;
            &&& now < deadline ==> {
                &&& state.step(now) is Wait
                &&& now + state.step(now)->Wait_0 == deadline
                &&& state.after_poll(now) == state
            }
            &&& now >= deadline ==> {
                &&& state.next_event(now) == Some(Event::GraceElapsed)
                &&& state.step(now) == StepView::Perform(state.lifecycle.grace_work())
                &&& state.after_poll(now).lifecycle == state.lifecycle.after_grace()
                &&& state.after_poll(now).awaiting == state.lifecycle.grace_work()
                &&& state.after_poll(now).commands == state.commands
                &&& state.after_poll(now).link == Link::Open
            }
        }),
{
}

/// The worker waits without a limit exactly if the link is open, no command waits and no release
/// does; and with a limit exactly if the link is open, no command waits and a release does whose
/// deadline is yet to come. Neither changes anything.
pub proof fn law_when_the_worker_waits(state: CoordinatorView, now: int)
    ensures
        state.step(now) is WaitForCommand <==> {
            &&& state.link == Link::Open
            &&& state.commands.len() == 0
            &&& state.lifecycle.pending_release is None
        },
        state.step(now) is Wait <==> {
            &&& state.link == Link::Open
            &&& state.commands.len() == 0
            &&& state.lifecycle.pending_release is Some
            &&& now < state.lifecycle.pending_release->0.deadline
        },
        state.step(now) is WaitForCommand || state.step(now) is Wait ==> state.after_poll(now)
            == state && state.next_event(now) is None,
{
}

/// The worker's task is over exactly if it was stopped, or the last sender is gone and no command
/// waits. The link is then stopped, and nothing else changes.
pub proof fn law_when_the_worker_exits(state: CoordinatorView, now: int)
    ensures
        state.step(now) is Exit <==> {
            ||| state.link == Link::Stopped
            ||| state.link == Link::HungUp && state.commands.len() == 0
        },
        state.step(now) is Exit ==> {
            &&& state.next_event(now) is None
            &&& state.after_poll(now).link == Link::Stopped
            &&& state.after_poll(now).commands == state.commands
            &&& state.after_poll(now).lifecycle == state.lifecycle
            &&& state.after_poll(now).awaiting == state.awaiting
        },
{
}

/// While commands wait, and the worker was not stopped, the worker is told the work of the oldest,
/// whatever the time and whatever release waits; it leaves the line, and the others keep their
/// order.
pub proof fn law_worker_takes_the_oldest_command(state: CoordinatorView, now: int)
    requires
        state.link != Link::Stopped,
        state.commands.len() > 0,
    ensures
        ({
            let event = Event::Command(state.commands[0]);
            let after = state.after_poll(now);
            &&& state.next_event(now) == Some(event)
            &&& state.step(now) == StepView::Perform(state.lifecycle.work(event, now))
            &&& after.lifecycle == state.lifecycle.take(event, now)
            &&& after.awaiting == state.lifecycle.work(event, now)
            &&& after.link == state.link
            &&& after.commands.len() == state.commands.len() - 1
            &&& forall|i: int|
                0 <= i < after.commands.len() ==> after.commands[i] == state.commands[i + 1]
        }),
{
}

/// A report of a start reaches the lifecycle with the binding and the mode that the worker was told,
/// a report of a stop reaches it as it is, and after either nothing is awaited.
pub proof fn law_what_reports_leave(
    state: CoordinatorView,
    outcome: StartOutcome,
    pressed_at: int,
    action_found: bool,
)
    ensures
        state.awaiting matches WorkView::Start { binding_id, recording_mode, .. } ==> {
            let after = state.after_start(outcome, pressed_at);
            &&& after.lifecycle == state.lifecycle.after_start(
                binding_id,
                recording_mode,
                outcome,
                pressed_at,
            )
            &&& after.awaiting is Nothing
            &&& after.commands == state.commands
            &&& after.link == state.link
        },
        ({
            let after = state.after_stop(action_found);
            &&& after.lifecycle == state.lifecycle.after_stop(action_found)
            &&& after.awaiting is Nothing
            &&& after.commands == state.commands
            &&& after.link == state.link
        }),
{
}

/// To hang up only closes an open link to senders. When the worker is gone, the line is empty and
/// nothing is awaited. Neither touches the lifecycle.
pub proof fn law_what_endings_leave(state: CoordinatorView)
    ensures
        ({
            let hung_up = state.after_hang_up();
            &&& state.link == Link::Open ==> hung_up.link == Link::HungUp
            &&& state.link != Link::Open ==> hung_up.link == state.link
            &&& hung_up.commands == state.commands
            &&& hung_up.lifecycle == state.lifecycle
            &&& hung_up.awaiting == state.awaiting
        }),
        ({
            let stopped = state.after_worker_stopped();
            &&& stopped.link == Link::Stopped
            &&& stopped.commands.len() == 0
            &&& stopped.lifecycle == state.lifecycle
            &&& stopped.awaiting is Nothing
        }),
{
}

/// The values of steps, work, stages, commands and times are what they hold, and nothing is left
/// out or made alike.
pub proof fn law_values_are_faithful(
    step: Step,
    work: Work,
    stage: Stage,
    command: Command,
    input: Input,
    time: Timestamp,
)
    ensures
        time@ == time.nanos,
        step matches Step::Perform(inner) ==> step@ == StepView::Perform(inner@),
        step matches Step::Wait(nanos) ==> step@ == StepView::Wait(nanos as int),
        step is WaitForCommand ==> step@ == StepView::WaitForCommand,
        step is Exit ==> step@ == StepView::Exit,
        work is Nothing ==> work@ == WorkView::Nothing,
        work matches Work::Start { binding_id, hotkey_string, recording_mode } ==> work@
            == (WorkView::Start {
            binding_id: binding_id@,
            hotkey_string: hotkey_string@,
            recording_mode,
        }),
        work matches Work::Stop { binding_id, hotkey_string } ==> work@ == (WorkView::Stop {
            binding_id: binding_id@,
            hotkey_string: hotkey_string@,
        }),
        stage is Idle ==> stage@ == StageView::Idle,
        stage matches Stage::Recording { binding_id, recording_mode } ==> stage@
            == (StageView::Recording { binding_id: binding_id@, recording_mode }),
        stage is Processing ==> stage@ == StageView::Processing,
        input@ == (InputView {
            binding_id: input.binding_id@,
            hotkey_string: input.hotkey_string@,
            is_pressed: input.is_pressed,
            recording_mode: input.recording_mode,
        }),
        command matches Command::Input(inner) ==> command@ == CommandView::Input(inner@),
        command matches Command::Cancel { recording_was_active } ==> command@
            == (CommandView::Cancel { recording_was_active }),
        command is ShortcutsSuspended ==> command@ == CommandView::ShortcutsSuspended,
        command is ProcessingFinished ==> command@ == CommandView::ProcessingFinished,
{
}

} // verus!
