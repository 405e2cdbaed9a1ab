use dictation::coordinator::{Link, Step, TranscriptionCoordinator};
use dictation::lifecycle::{Stage, Work};
use dictation::model::StartOutcome;
use dictation::shortcut::{
    classify_release_event, effective_recording_mode, is_transcribe_binding, PttAction,
    RecordingMode,
};
use dictation::timing::{
    is_short_tap, Timestamp, DEBOUNCE, RELEASE_GRACE, TAP_OR_HOLD_THRESHOLD,
};

const MS: u64 = 1_000_000;
const BINDING: &str = "transcribe";
const HOTKEY: &str = "ctrl+space";

fn at_ms(ms: u64) -> Timestamp {
    Timestamp { nanos: ms * MS }
}

#[test]
fn push_to_talk_release_while_recording_defers_release() {
    assert_eq!(
        classify_release_event(
            None,
            false,
            RecordingMode::PushToTalk,
            "transcribe",
            Some("transcribe"),
        ),
        PttAction::DeferRelease
    );
}

#[test]
fn push_to_talk_press_matching_pending_release_cancels_release() {
    assert_eq!(
        classify_release_event(
            Some("transcribe"),
            true,
            RecordingMode::PushToTalk,
            "transcribe",
            Some("transcribe")
        ),
        PttAction::CancelRelease
    );
}

#[test]
fn toggle_mode_press_and_release_pass_through() {
    assert_eq!(
        classify_release_event(
            Some("transcribe"),
            true,
            RecordingMode::Toggle,
            "transcribe",
            Some("transcribe")
        ),
        PttAction::Passthrough
    );
    assert_eq!(
        classify_release_event(
            None,
            false,
            RecordingMode::Toggle,
            "transcribe",
            Some("transcribe"),
        ),
        PttAction::Passthrough
    );
}

#[test]
fn press_for_different_binding_than_pending_release_passes_through() {
    assert_eq!(
        classify_release_event(
            Some("transcribe"),
            true,
            RecordingMode::PushToTalk,
            "transcribe_with_post_process",
            Some("transcribe")
        ),
        PttAction::Passthrough
    );
}

#[test]
fn press_matching_pending_release_cancels_without_recording_state() {
    assert_eq!(
        classify_release_event(
            Some("transcribe"),
            true,
            RecordingMode::PushToTalk,
            "transcribe",
            None,
        ),
        PttAction::CancelRelease
    );
}

// Under X11 key auto-repeat, holding a push-to-talk key does not emit one long
// press. It emits the initial press followed by a stream of synthesized
// release/press pairs, then a single genuine release on key-up. The simulations
// below send such bursts through a coordinator and play its worker, with times
// of their own choosing.

/// Plays the worker of a coordinator, and counts what it is told to do.
struct Simulation {
    coordinator: TranscriptionCoordinator,
    starts: u32,
    stops: u32,
    start_outcome: StartOutcome,
    stop_action_found: bool,
    work: Vec<Work>,
}

impl Simulation {
    fn new() -> Self {
        Self {
            coordinator: TranscriptionCoordinator::new(),
            starts: 0,
            stops: 0,
            start_outcome: StartOutcome::Recording,
            stop_action_found: true,
            work: Vec::new(),
        }
    }

    /// Does all there is to do at `now`, and returns the step at which there is nothing left.
    fn settle(&mut self, now: Timestamp) -> Step {
        loop {
            match self.coordinator.poll(now) {
                Step::Perform(work) => {
                    match &work {
                        Work::Nothing => {}
                        Work::Start { .. } => {
                            self.starts += 1;
                            self.coordinator.start(self.start_outcome, now);
                        }
                        Work::Stop { .. } => {
                            self.stops += 1;
                            self.coordinator.stop(self.stop_action_found);
                        }
                    }
                    self.work.push(work);
                }
                step => return step,
            }
        }
    }

    fn input(&mut self, binding: &str, is_pressed: bool, mode: RecordingMode, ms: u64) -> Step {
        assert!(self.coordinator.send_input(binding, HOTKEY, is_pressed, mode));
        self.settle(at_ms(ms))
    }

    fn stage(&self) -> SimStage {
        match self.coordinator.lifecycle().stage() {
            Stage::Idle => SimStage::Idle,
            Stage::Recording { .. } => SimStage::Recording,
            Stage::Processing => SimStage::Processing,
        }
    }
}

#[derive(Clone, Copy)]
enum Ev {
    /// A key-down event (real initial press or a synthesized auto-repeat press).
    Press,
    /// A key-up event (synthesized auto-repeat release or the genuine key-up).
    Release,
    /// The grace period elapsed with no cancelling press arriving.
    Grace,
}

#[derive(Debug, Clone, PartialEq, Eq)]
enum SimStage {
    Idle,
    Recording,
    Processing,
}

struct SimResult {
    starts: u32,
    stops: u32,
    stage: SimStage,
}

/// Sends the events of a single push-to-talk binding through a coordinator.
fn simulate(events: &[Ev]) -> SimResult {
    let mut simulation = Simulation::new();
    let mut clock_ms: u64 = 0;
    for ev in events {
        // Auto-repeat events arrive a few ms apart, well inside the debounce period.
        clock_ms += 5;
        match ev {
            Ev::Grace => {
                clock_ms += RELEASE_GRACE / MS;
                simulation.settle(at_ms(clock_ms));
            }
            Ev::Press => {
                simulation.input(BINDING, true, RecordingMode::PushToTalk, clock_ms);
            }
            Ev::Release => {
                simulation.input(BINDING, false, RecordingMode::PushToTalk, clock_ms);
            }
        }
    }
    SimResult {
        starts: simulation.starts,
        stops: simulation.stops,
        stage: simulation.stage(),
    }
}

/// Initial press plus several synthesized release/press pairs, as X11 emits
/// while a push-to-talk key is held down.
fn autorepeat_burst() -> Vec<Ev> {
    let mut events = vec![Ev::Press];
    for _ in 0..6 {
        events.push(Ev::Release);
        events.push(Ev::Press);
    }
    events
}

/// A burst of X11 auto-repeat release/press pairs must not stop recording.
#[test]
fn x11_autorepeat_burst_does_not_toggle_recording() {
    let result = simulate(&autorepeat_burst());
    assert_eq!(result.starts, 1, "recording should start exactly once");
    assert_eq!(
        result.stops, 0,
        "synthesized auto-repeat releases must not stop recording mid-burst"
    );
    assert_eq!(
        result.stage,
        SimStage::Recording,
        "recording must remain active across the entire auto-repeat burst"
    );
}

/// Once the key is genuinely released and the grace period elapses with no
/// re-press, recording stops exactly once.
#[test]
fn genuine_release_after_grace_stops_recording_once() {
    let mut events = autorepeat_burst();
    events.push(Ev::Release); // genuine key-up
    events.push(Ev::Grace); // grace period elapses, no cancelling press
    let result = simulate(&events);
    assert_eq!(result.starts, 1, "recording should start exactly once");
    assert_eq!(
        result.stops, 1,
        "a genuine release should stop recording exactly once"
    );
    assert_eq!(result.stage, SimStage::Processing);
}

#[derive(Debug, PartialEq, Eq)]
struct HybridResult {
    starts: u32,
    stops: u32,
    stage: SimStage,
    latched: bool,
    consumed_release: bool,
}

/// The key of a tap-or-hold binding, with event timestamps, so that the 250 ms
/// boundary is independent of the grace period that absorbs X11 auto-repeat.
struct HybridSimulation {
    simulation: Simulation,
    clock_ms: u64,
}

impl HybridSimulation {
    fn new() -> Self {
        Self {
            simulation: Simulation::new(),
            clock_ms: 0,
        }
    }

    fn press(&mut self, at_ms: u64) {
        self.clock_ms = at_ms;
        self.simulation
            .input(BINDING, true, RecordingMode::TapOrHold, at_ms);
    }

    fn release(&mut self, at_ms: u64) {
        self.clock_ms = at_ms;
        self.simulation
            .input(BINDING, false, RecordingMode::TapOrHold, at_ms);
    }

    fn grace_elapsed(&mut self) {
        self.clock_ms += RELEASE_GRACE / MS;
        self.simulation.settle(at_ms(self.clock_ms));
    }

    fn cancel(&mut self) {
        assert!(self.simulation.coordinator.notify_cancel(true));
        self.simulation.settle(at_ms(self.clock_ms));
    }

    fn result(&self) -> HybridResult {
        let lifecycle = self.simulation.coordinator.lifecycle();
        HybridResult {
            starts: self.simulation.starts,
            stops: self.simulation.stops,
            stage: self.simulation.stage(),
            latched: lifecycle.latched_binding() == Some(BINDING),
            consumed_release: lifecycle.consumed_release_binding() == Some(BINDING),
        }
    }
}

#[test]
fn short_tap_latches_then_second_press_stops_and_consumes_release() {
    let mut sim = HybridSimulation::new();
    sim.press(0);
    sim.release(249);
    sim.grace_elapsed();
    assert_eq!(sim.result().stage, SimStage::Recording);
    assert!(sim.result().latched);

    sim.press(400);
    assert_eq!(sim.result().stage, SimStage::Processing);
    assert!(sim.result().consumed_release);
    sim.release(405);

    assert_eq!(
        sim.result(),
        HybridResult {
            starts: 1,
            stops: 1,
            stage: SimStage::Processing,
            latched: false,
            consumed_release: false,
        }
    );
}

#[test]
fn exact_threshold_release_is_a_held_recording() {
    let mut sim = HybridSimulation::new();
    sim.press(0);
    sim.release(TAP_OR_HOLD_THRESHOLD / MS);
    sim.grace_elapsed();

    assert_eq!(sim.result().stage, SimStage::Processing);
    assert_eq!(sim.result().stops, 1);
    assert!(!sim.result().latched);
}

#[test]
fn autorepeat_release_press_pair_preserves_original_hybrid_press_time() {
    let mut sim = HybridSimulation::new();
    sim.press(0);
    sim.release(100);
    sim.press(105); // synthesized repeat press cancels the pending release
    sim.release(600);
    sim.grace_elapsed();

    assert_eq!(sim.result().starts, 1);
    assert_eq!(sim.result().stops, 1);
    assert_eq!(sim.result().stage, SimStage::Processing);
}

#[test]
fn cancel_clears_held_and_latched_hybrid_state() {
    let mut held = HybridSimulation::new();
    held.press(0);
    held.cancel();
    assert_eq!(held.result().stage, SimStage::Idle);
    assert!(!held.result().latched);

    let mut latched = HybridSimulation::new();
    latched.press(0);
    latched.release(10);
    latched.grace_elapsed();
    latched.cancel();
    assert_eq!(latched.result().stage, SimStage::Idle);
    assert!(!latched.result().latched);
}

#[test]
fn threshold_helper_and_press_only_toggle_behavior_are_explicit() {
    let start = Timestamp {
        nanos: 7_000_000_003,
    };
    assert!(is_short_tap(
        start,
        start.after(TAP_OR_HOLD_THRESHOLD - MS)
    ));
    assert!(!is_short_tap(start, start.after(TAP_OR_HOLD_THRESHOLD)));
    assert_eq!(
        classify_release_event(
            None,
            true,
            RecordingMode::Toggle,
            "transcribe",
            Some("transcribe"),
        ),
        PttAction::Passthrough,
        "a CLI/signal press is a regular toggle press regardless of UI mode"
    );
    assert_eq!(
        effective_recording_mode(RecordingMode::Toggle, Some(RecordingMode::PushToTalk),),
        RecordingMode::Toggle,
        "a CLI/signal press can stop an existing held recording"
    );
}

#[test]
fn durations_are_thirty_fifty_and_two_hundred_fifty_milliseconds() {
    assert_eq!(DEBOUNCE, 30 * MS);
    assert_eq!(RELEASE_GRACE, 50 * MS);
    assert_eq!(TAP_OR_HOLD_THRESHOLD, 250 * MS);
}

#[test]
fn durations_never_run_backwards() {
    assert_eq!(at_ms(70).duration_since(at_ms(20)), 50 * MS);
    assert_eq!(at_ms(20).duration_since(at_ms(70)), 0);
    assert_eq!(at_ms(20).after(50 * MS), at_ms(70));
    assert!(is_short_tap(at_ms(900), at_ms(100)));
}

#[test]
fn transcribe_bindings_are_told_by_name() {
    assert!(is_transcribe_binding("transcribe"));
    assert!(is_transcribe_binding("transcribe_with_post_process"));
    assert!(!is_transcribe_binding("transcribe_"));
    assert!(!is_transcribe_binding("Transcribe"));
    assert!(!is_transcribe_binding("trånscribe"));
    assert!(!is_transcribe_binding(""));
}

#[test]
fn events_follow_the_mode_of_the_recording() {
    assert_eq!(
        effective_recording_mode(RecordingMode::PushToTalk, Some(RecordingMode::TapOrHold)),
        RecordingMode::TapOrHold
    );
    assert_eq!(
        effective_recording_mode(RecordingMode::TapOrHold, None),
        RecordingMode::TapOrHold
    );
    assert_eq!(
        effective_recording_mode(RecordingMode::TapOrHold, Some(RecordingMode::Toggle)),
        RecordingMode::Toggle
    );
}

#[test]
fn release_events_of_other_bindings_pass_through() {
    assert_eq!(
        classify_release_event(
            None,
            false,
            RecordingMode::TapOrHold,
            "transcribe_with_post_process",
            Some("transcribe"),
        ),
        PttAction::Passthrough
    );
    assert_eq!(
        classify_release_event(
            Some("transcribe"),
            false,
            RecordingMode::TapOrHold,
            "transcribe",
            Some("transcribe"),
        ),
        PttAction::Passthrough
    );
    assert_eq!(
        classify_release_event(None, false, RecordingMode::PushToTalk, "transcribe", None),
        PttAction::Passthrough
    );
}

#[test]
fn work_names_the_binding_the_hotkey_and_the_mode() {
    let mut sim = Simulation::new();
    sim.input(BINDING, true, RecordingMode::PushToTalk, 10);
    sim.input(BINDING, false, RecordingMode::PushToTalk, 400);
    sim.settle(at_ms(450));
    assert_eq!(
        sim.work,
        vec![
            Work::Start {
                binding_id: BINDING.to_string(),
                hotkey_string: HOTKEY.to_string(),
                recording_mode: RecordingMode::PushToTalk,
            },
            Work::Nothing,
            Work::Stop {
                binding_id: BINDING.to_string(),
                hotkey_string: HOTKEY.to_string(),
            },
        ]
    );
    assert_eq!(sim.work[0].clone(), sim.work[0]);
}

#[test]
fn worker_waits_for_the_rest_of_the_grace_period() {
    let mut sim = Simulation::new();
    assert_eq!(sim.settle(at_ms(0)), Step::WaitForCommand);
    sim.input(BINDING, true, RecordingMode::PushToTalk, 10);
    let step = sim.input(BINDING, false, RecordingMode::PushToTalk, 100);
    assert_eq!(step, Step::Wait(50 * MS));
    assert_eq!(sim.settle(at_ms(120)), Step::Wait(30 * MS));
    // A further release does not put the deadline off.
    let step = sim.input(BINDING, false, RecordingMode::PushToTalk, 130);
    assert_eq!(step, Step::Wait(20 * MS));
    assert_eq!(sim.stops, 0);
    assert_eq!(sim.settle(at_ms(150)), Step::WaitForCommand);
    assert_eq!(sim.stops, 1);
}

#[test]
fn a_command_goes_before_an_elapsed_grace_period() {
    let mut sim = Simulation::new();
    sim.input(BINDING, true, RecordingMode::PushToTalk, 0);
    sim.input(BINDING, false, RecordingMode::PushToTalk, 100);
    // The press comes long after the deadline, but before the worker looked again.
    let step = sim.input(BINDING, true, RecordingMode::PushToTalk, 400);
    assert_eq!(step, Step::WaitForCommand);
    assert_eq!(sim.stops, 0);
    assert_eq!(sim.stage(), SimStage::Recording);
}

#[test]
fn commands_are_taken_in_the_order_of_sending() {
    let mut sim = Simulation::new();
    let coordinator = &mut sim.coordinator;
    assert!(coordinator.send_input(BINDING, "first", true, RecordingMode::Toggle));
    assert!(coordinator.notify_cancel(false));
    assert!(coordinator.send_input("other", "second", true, RecordingMode::Toggle));
    let first = coordinator.poll(at_ms(0));
    assert_eq!(
        first,
        Step::Perform(Work::Start {
            binding_id: BINDING.to_string(),
            hotkey_string: "first".to_string(),
            recording_mode: RecordingMode::Toggle,
        })
    );
    coordinator.start(StartOutcome::Recording, at_ms(0));
    assert_eq!(coordinator.poll(at_ms(10)), Step::Perform(Work::Nothing));
    assert!(matches!(coordinator.lifecycle().stage(), Stage::Idle));
    let third = coordinator.poll(at_ms(40));
    assert_eq!(
        third,
        Step::Perform(Work::Start {
            binding_id: "other".to_string(),
            hotkey_string: "second".to_string(),
            recording_mode: RecordingMode::Toggle,
        })
    );
    coordinator.start(StartOutcome::Recording, at_ms(40));
    assert_eq!(coordinator.poll(at_ms(50)), Step::WaitForCommand);
}

#[test]
fn presses_within_thirty_milliseconds_are_debounced() {
    let mut sim = Simulation::new();
    sim.input(BINDING, true, RecordingMode::Toggle, 100);
    sim.input(BINDING, true, RecordingMode::Toggle, 129);
    assert_eq!((sim.starts, sim.stops), (1, 0));
    sim.input(BINDING, true, RecordingMode::Toggle, 130);
    assert_eq!((sim.starts, sim.stops), (1, 1));
    assert_eq!(sim.stage(), SimStage::Processing);
}

#[test]
fn toggle_press_stops_a_held_recording() {
    let mut sim = Simulation::new();
    sim.input(BINDING, true, RecordingMode::PushToTalk, 0);
    sim.input(BINDING, false, RecordingMode::Toggle, 50);
    assert_eq!(sim.stage(), SimStage::Recording);
    sim.input(BINDING, true, RecordingMode::Toggle, 100);
    assert_eq!((sim.starts, sim.stops), (1, 1));
    assert_eq!(sim.stage(), SimStage::Processing);
}

#[test]
fn key_press_stops_a_recording_that_a_toggle_began() {
    let mut sim = Simulation::new();
    sim.input(BINDING, true, RecordingMode::Toggle, 0);
    sim.input(BINDING, false, RecordingMode::PushToTalk, 100);
    assert_eq!(sim.settle(at_ms(400)), Step::WaitForCommand);
    assert_eq!(sim.stage(), SimStage::Recording);
    sim.input(BINDING, true, RecordingMode::PushToTalk, 500);
    assert_eq!((sim.starts, sim.stops), (1, 1));
}

#[test]
fn other_bindings_are_ignored_while_the_pipeline_is_busy() {
    let mut sim = Simulation::new();
    sim.input(BINDING, true, RecordingMode::Toggle, 0);
    sim.input("other", true, RecordingMode::Toggle, 100);
    sim.input("other", true, RecordingMode::PushToTalk, 200);
    assert_eq!((sim.starts, sim.stops), (1, 0));
    sim.input(BINDING, true, RecordingMode::Toggle, 300);
    sim.input(BINDING, true, RecordingMode::Toggle, 400);
    assert_eq!((sim.starts, sim.stops), (1, 1));
    assert_eq!(sim.stage(), SimStage::Processing);
}

#[test]
fn cancel_does_not_reset_during_processing() {
    for recording_was_active in [false, true] {
        let mut sim = Simulation::new();
        sim.input(BINDING, true, RecordingMode::Toggle, 0);
        sim.input(BINDING, true, RecordingMode::Toggle, 100);
        assert!(sim.coordinator.notify_cancel(recording_was_active));
        sim.settle(at_ms(110));
        assert_eq!(sim.stage(), SimStage::Processing);
        assert!(sim.coordinator.notify_processing_finished());
        sim.settle(at_ms(120));
        assert_eq!(sim.stage(), SimStage::Idle);
    }
}

#[test]
fn cancel_gives_up_a_recording_whatever_it_was_told() {
    for recording_was_active in [false, true] {
        let mut sim = Simulation::new();
        sim.input(BINDING, true, RecordingMode::PushToTalk, 0);
        sim.input(BINDING, false, RecordingMode::PushToTalk, 100);
        assert!(sim.coordinator.notify_cancel(recording_was_active));
        assert_eq!(sim.settle(at_ms(110)), Step::WaitForCommand);
        assert_eq!(sim.stage(), SimStage::Idle);
        assert_eq!(sim.stops, 0);
    }
}

#[test]
fn suspended_shortcuts_leave_the_recording_alone() {
    let mut sim = Simulation::new();
    sim.input(BINDING, true, RecordingMode::TapOrHold, 0);
    sim.input(BINDING, false, RecordingMode::TapOrHold, 10);
    sim.settle(at_ms(60));
    assert_eq!(
        sim.coordinator.lifecycle().latched_binding(),
        Some(BINDING)
    );
    assert!(sim.coordinator.notify_shortcuts_suspended());
    sim.settle(at_ms(70));
    assert_eq!(sim.coordinator.lifecycle().latched_binding(), None);
    assert_eq!(sim.stage(), SimStage::Recording);
    assert_eq!((sim.starts, sim.stops), (1, 0));
}

#[test]
fn processing_finished_makes_way_for_the_next_recording() {
    let mut sim = Simulation::new();
    sim.input(BINDING, true, RecordingMode::Toggle, 0);
    sim.input(BINDING, true, RecordingMode::Toggle, 100);
    assert!(sim.coordinator.notify_processing_finished());
    sim.input(BINDING, true, RecordingMode::Toggle, 200);
    assert_eq!((sim.starts, sim.stops), (2, 1));
    assert_eq!(sim.stage(), SimStage::Recording);
}

#[test]
fn a_start_that_does_not_record_stays_idle() {
    for outcome in [StartOutcome::NoAction, StartOutcome::NotRecording] {
        let mut sim = Simulation::new();
        sim.start_outcome = outcome;
        sim.input(BINDING, true, RecordingMode::TapOrHold, 0);
        assert_eq!(sim.stage(), SimStage::Idle);
        let step = sim.input(BINDING, false, RecordingMode::TapOrHold, 100);
        assert_eq!(step, Step::WaitForCommand);
        assert_eq!((sim.starts, sim.stops), (1, 0));
    }
}

#[test]
fn a_stop_without_an_action_goes_on_recording() {
    let mut sim = Simulation::new();
    sim.stop_action_found = false;
    sim.input(BINDING, true, RecordingMode::Toggle, 0);
    sim.input(BINDING, true, RecordingMode::Toggle, 100);
    assert_eq!(sim.stops, 1);
    assert_eq!(sim.stage(), SimStage::Recording);
}

#[test]
fn press_time_is_that_of_the_start() {
    let mut sim = Simulation::new();
    assert!(sim
        .coordinator
        .send_input(BINDING, HOTKEY, true, RecordingMode::TapOrHold));
    sim.coordinator.poll(at_ms(0));
    // The key is taken to have gone down ten milliseconds after the event.
    sim.coordinator.start(StartOutcome::Recording, at_ms(10));
    sim.input(BINDING, false, RecordingMode::TapOrHold, 259);
    sim.settle(at_ms(309));
    assert_eq!(
        sim.coordinator.lifecycle().latched_binding(),
        Some(BINDING)
    );
}

#[test]
fn a_release_after_a_latch_keeps_the_recording_latched() {
    let mut sim = HybridSimulation::new();
    sim.press(0);
    sim.release(10);
    sim.grace_elapsed();
    sim.release(2_000);
    sim.grace_elapsed();
    assert_eq!(sim.result().stage, SimStage::Recording);
    assert!(sim.result().latched);
}

#[test]
fn commands_are_lost_once_the_worker_is_gone() {
    let mut coordinator = TranscriptionCoordinator::new();
    assert!(coordinator.notify_cancel(true));
    coordinator.worker_stopped();
    assert_eq!(coordinator.link(), Link::Stopped);
    assert!(!coordinator.send_input(BINDING, HOTKEY, true, RecordingMode::Toggle));
    assert!(!coordinator.notify_cancel(true));
    assert!(!coordinator.notify_processing_finished());
    assert!(!coordinator.notify_shortcuts_suspended());
    assert_eq!(coordinator.poll(at_ms(0)), Step::Exit);
}

#[test]
fn commands_in_line_are_taken_after_the_last_sender_is_gone() {
    let mut sim = Simulation::new();
    sim.input(BINDING, true, RecordingMode::PushToTalk, 0);
    assert!(sim
        .coordinator
        .send_input(BINDING, HOTKEY, false, RecordingMode::PushToTalk));
    sim.coordinator.hang_up();
    assert_eq!(sim.coordinator.link(), Link::HungUp);
    assert!(!sim.coordinator.notify_cancel(true));
    assert_eq!(
        sim.coordinator.poll(at_ms(100)),
        Step::Perform(Work::Nothing)
    );
    // The release that waits no longer takes effect.
    assert_eq!(sim.coordinator.poll(at_ms(900)), Step::Exit);
    assert_eq!(sim.coordinator.link(), Link::Stopped);
    assert_eq!(sim.stops, 0);
}
