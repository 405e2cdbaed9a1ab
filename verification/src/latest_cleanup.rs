//! In-memory ownership of the most recent AI cleanup result.
//!
//! History retains every cleanup result, but the insert hotkey must only ever use
//! the current dictation's result. A generation makes late completions harmless.

use vstd::prelude::*;

verus! {

enum LatestCleanupState {
    Empty,
    Pending { generation: u64, insert_when_ready: bool },
    Ready { generation: u64, text: String },
    Failed { generation: u64 },
}

/// The answer to the insert hotkey.
#[derive(Debug, PartialEq, Eq)]
pub enum InsertLatestOutcome {
    /// Insert this text now.
    Insert(String),
    /// The text is inserted as soon as it is there.
    Pending,
    /// The cleanup failed.
    Unavailable,
    /// There is no cleanup.
    Empty,
}

/// Completion is only observable for the current dictation. A late cleanup can
/// still update its History row, but must not update the overlay or insertion
/// target for a newer dictation.
#[derive(Debug, PartialEq, Eq)]
pub enum LatestCleanupCompletion {
    /// The text is there for the insert hotkey.
    Ready,
    /// The insert hotkey asked for this text while it was being made.
    Insert(String),
}

/// The cleanup that the insert hotkey would use.
#[verifier::ext_equal]
pub enum TargetView {
    Empty,
    Pending { generation: nat, insert_when_ready: bool },
    Ready { generation: nat, text: Seq<char> },
    Failed { generation: nat },
}

/// The value of an [`InsertLatestOutcome`].
#[verifier::ext_equal]
pub enum OutcomeView {
    Insert(Seq<char>),
    Pending,
    Unavailable,
    Empty,
}

/// The value of a [`LatestCleanupCompletion`].
#[verifier::ext_equal]
pub enum CompletionView {
    Ready,
    Insert(Seq<char>),
}

/// The value of a [`LatestCleanupCoordinator`].
#[verifier::ext_equal]
pub struct LatestCleanupView {
    pub target: TargetView,
    /// The generation of the newest cleanup, counted from 1; 0 before the first.
    pub last_generation: nat,
}

impl View for InsertLatestOutcome {
    type V = OutcomeView;

    open spec fn view(&self) -> OutcomeView {
        match self {
            InsertLatestOutcome::Insert(text) => OutcomeView::Insert(text@),
            InsertLatestOutcome::Pending => OutcomeView::Pending,
            InsertLatestOutcome::Unavailable => OutcomeView::Unavailable,
            InsertLatestOutcome::Empty => OutcomeView::Empty,
        }
    }
}

impl View for LatestCleanupCompletion {
    type V = CompletionView;

    open spec fn view(&self) -> CompletionView {
        match self {
            LatestCleanupCompletion::Ready => CompletionView::Ready,
            LatestCleanupCompletion::Insert(text) => CompletionView::Insert(text@),
        }
    }
}

impl Clone for InsertLatestOutcome {
    fn clone(&self) -> (copy: InsertLatestOutcome)
        ensures
            copy@ == self@,
    {
        match self {
            InsertLatestOutcome::Insert(text) => InsertLatestOutcome::Insert(text.clone()),
            InsertLatestOutcome::Pending => InsertLatestOutcome::Pending,
            InsertLatestOutcome::Unavailable => InsertLatestOutcome::Unavailable,
            InsertLatestOutcome::Empty => InsertLatestOutcome::Empty,
        }
    }
}

impl Clone for LatestCleanupCompletion {
    fn clone(&self) -> (copy: LatestCleanupCompletion)
        ensures
            copy@ == self@,
    {
        match self {
            LatestCleanupCompletion::Ready => LatestCleanupCompletion::Ready,
            LatestCleanupCompletion::Insert(text) => LatestCleanupCompletion::Insert(text.clone()),
        }
    }
}

/// The value of a completion that may be withheld.
pub open spec fn completion_view(
    completion: Option<LatestCleanupCompletion>,
) -> Option<CompletionView> {
    match completion {
        Some(present) => Some(present@),
        None => None,
    }
}

impl LatestCleanupView {
    /// No cleanup was ever begun.
    pub open spec fn initial() -> LatestCleanupView {
        LatestCleanupView { target: TargetView::Empty, last_generation: 0 }
    }

    /// Whether the cleanup of `generation` is under way and is the one that counts.
    pub open spec fn awaits(self, generation: nat) -> bool {
        self.target matches TargetView::Pending { generation: pending, .. } && pending == generation
    }

    pub open spec fn after_invalidate(self) -> LatestCleanupView {
        LatestCleanupView { target: TargetView::Empty, ..self }
    }

    pub open spec fn after_begin(self) -> LatestCleanupView {
        LatestCleanupView {
            target: TargetView::Pending {
                generation: self.last_generation + 1,
                insert_when_ready: false,
            },
            last_generation: self.last_generation + 1,
        }
    }

    pub open spec fn after_complete(self, generation: nat, text: Seq<char>) -> LatestCleanupView {
        if self.awaits(generation) {
            LatestCleanupView { target: TargetView::Ready { generation, text }, ..self }
        } else {
            self
        }
    }

    /// What a completion lets its caller see.
    pub open spec fn completion(self, generation: nat, text: Seq<char>) -> Option<CompletionView> {
        if !self.awaits(generation) {
            None
        } else if self.target->insert_when_ready {
            Some(CompletionView::Insert(text))
        } else {
            Some(CompletionView::Ready)
        }
    }

    pub open spec fn after_fail(self, generation: nat) -> LatestCleanupView {
        if self.awaits(generation) {
            LatestCleanupView { target: TargetView::Failed { generation }, ..self }
        } else {
            self
        }
    }

    pub open spec fn after_request(self) -> LatestCleanupView {
        match self.target {
            TargetView::Pending { generation, .. } => LatestCleanupView {
                target: TargetView::Pending { generation, insert_when_ready: true },
                ..self
            },
            _ => self,
        }
    }

    /// The answer to the insert hotkey.
    pub open spec fn outcome(self) -> OutcomeView {
        match self.target {
            TargetView::Empty => OutcomeView::Empty,
            TargetView::Pending { .. } => OutcomeView::Pending,
            TargetView::Ready { text, .. } => OutcomeView::Insert(text),
            TargetView::Failed { .. } => OutcomeView::Unavailable,
        }
    }

    /// Whether the target, if there is one, is the newest cleanup.
    pub open spec fn well_formed(self) -> bool {
        match self.target {
            TargetView::Empty => true,
            TargetView::Pending { generation, .. } => generation == self.last_generation,
            TargetView::Ready { generation, .. } => generation == self.last_generation,
            TargetView::Failed { generation } => generation == self.last_generation,
        }
    }
}

/// Coordinates one explicit insertion operation for the latest cleanup result.
pub struct LatestCleanupCoordinator {
    state: LatestCleanupState,
    next_generation: u64,
}

impl View for LatestCleanupCoordinator {
    type V = LatestCleanupView;

    closed spec fn view(&self) -> LatestCleanupView {
        LatestCleanupView {
            target: match self.state {
                LatestCleanupState::Empty => TargetView::Empty,
                LatestCleanupState::Pending { generation, insert_when_ready } => {
                    TargetView::Pending { generation: generation as nat, insert_when_ready }
                },
                LatestCleanupState::Ready { generation, text } => TargetView::Ready {
                    generation: generation as nat,
                    text: text@,
                },
                LatestCleanupState::Failed { generation } => TargetView::Failed {
                    generation: generation as nat,
                },
            },
            last_generation: self.next_generation as nat,
        }
    }
}

impl LatestCleanupCoordinator {
    /// A coordinator without a cleanup.
    pub fn new() -> (coordinator: LatestCleanupCoordinator)
        ensures
            coordinator@ == LatestCleanupView::initial(),
            coordinator@.well_formed(),
    {
        LatestCleanupCoordinator { state: LatestCleanupState::Empty, next_generation: 0 }
    }

    /// Invalidates the current target as soon as a new recording begins.
    pub fn invalidate(&mut self)
        ensures
            final(self)@ == old(self)@.after_invalidate(),
            final(self)@.well_formed(),
    {
        self.state = LatestCleanupState::Empty;
    }

    /// Whether there is a generation left for another cleanup.
    pub fn can_begin(&self) -> (can: bool)
        ensures
            can == (self@.last_generation < u64::MAX),
    {
        self.next_generation < u64::MAX
    }

    /// Makes a new cleanup the target, and returns its generation.
    pub fn begin(&mut self) -> (generation: u64)
        requires
            old(self)@.last_generation < u64::MAX,
        ensures
            final(self)@ == old(self)@.after_begin(),
            generation == old(self)@.last_generation + 1,
            final(self)@.well_formed(),
    {
        self.next_generation = self.next_generation + 1;
        let generation: u64 = self.next_generation;
        self.state = LatestCleanupState::Pending { generation, insert_when_ready: false };
        generation
    }

    /// Returns a completion only when it belongs to the current dictation.
    pub fn complete(&mut self, generation: u64, text: String) -> (completion: Option<
        LatestCleanupCompletion,
    >)
        ensures
            final(self)@ == old(self)@.after_complete(generation as nat, text@),
            completion_view(completion) == old(self)@.completion(generation as nat, text@),
            old(self)@.well_formed() ==> final(self)@.well_formed(),
    {
        let insert: bool = match &self.state {
            LatestCleanupState::Pending { generation: pending_generation, insert_when_ready } => {
                if *pending_generation != generation {
                    return None;
                }
                *insert_when_ready
            },
            _ => return None,
        };
        let completion = if insert {
            LatestCleanupCompletion::Insert(text.clone())
        } else {
            LatestCleanupCompletion::Ready
        };
        self.state = LatestCleanupState::Ready { generation, text };
        Some(completion)
    }

    /// Takes note that the cleanup of `generation` failed, when it is the current one.
    pub fn fail(&mut self, generation: u64)
        ensures
            final(self)@ == old(self)@.after_fail(generation as nat),
            old(self)@.well_formed() ==> final(self)@.well_formed(),
    {
        let current: bool = match &self.state {
            LatestCleanupState::Pending { generation: pending_generation, .. } => {
                *pending_generation == generation
            },
            _ => false,
        };
        if current {
            self.state = LatestCleanupState::Failed { generation };
        }
    }

    /// Answers the insert hotkey. A request that comes too early is remembered.
    pub fn request_insert(&mut self) -> (outcome: InsertLatestOutcome)
        ensures
            final(self)@ == old(self)@.after_request(),
            outcome@ == old(self)@.outcome(),
            old(self)@.well_formed() ==> final(self)@.well_formed(),
    {
        match &mut self.state {
            LatestCleanupState::Empty => InsertLatestOutcome::Empty,
            LatestCleanupState::Failed { .. } => InsertLatestOutcome::Unavailable,
            LatestCleanupState::Ready { text, .. } => InsertLatestOutcome::Insert(text.clone()),
            LatestCleanupState::Pending { insert_when_ready, .. } => {
                *insert_when_ready = true;
                InsertLatestOutcome::Pending
            },
        }
    }
}

impl Default for LatestCleanupCoordinator {
    fn default() -> (coordinator: LatestCleanupCoordinator)
        ensures
            coordinator@ == LatestCleanupView::initial(),
            coordinator@.well_formed(),
    {
        LatestCleanupCoordinator::new()
    }
}

} // verus!
