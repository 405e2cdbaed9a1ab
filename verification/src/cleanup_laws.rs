//! What holds of the latest cleanup over any course of operations.

use crate::latest_cleanup::{
    CompletionView, InsertLatestOutcome, LatestCleanupCompletion, LatestCleanupView, OutcomeView,
    TargetView,
};
use vstd::prelude::*;

verus! {

/// An operation on the latest cleanup.
pub enum CleanupOperation {
    Invalidate,
    Begin,
    Complete { generation: nat, text: Seq<char> },
    Fail { generation: nat },
    RequestInsert,
}

impl CleanupOperation {
    /// Whether the operation makes way for another dictation.
    pub open spec fn moves_on(self) -> bool {
        self is Invalidate || self is Begin
    }

    /// Whether the operation ends the cleanup of `generation`.
    pub open spec fn ends(self, generation: nat) -> bool {
        match self {
            CleanupOperation::Complete { generation: ended, .. } => ended == generation,
            CleanupOperation::Fail { generation: ended } => ended == generation,
            _ => false,
        }
    }
}

/// Whether none of `operations` makes way for another dictation.
pub open spec fn stay(operations: Seq<CleanupOperation>) -> bool {
    forall|i: int| 0 <= i < operations.len() ==> !(#[trigger] operations[i]).moves_on()
}

/// Whether none of `operations` makes way for another dictation or ends the cleanup of `generation`.
pub open spec fn stay_pending(operations: Seq<CleanupOperation>, generation: nat) -> bool {
    forall|i: int|
        0 <= i < operations.len() ==> !(#[trigger] operations[i]).moves_on()
            && !operations[i].ends(generation)
}

/// The number of cleanups that `operations` begin.
pub open spec fn count_begins(operations: Seq<CleanupOperation>) -> nat
    decreases operations.len(),
{
    if operations.len() == 0 {
        0
    } else {
        count_begins(operations.drop_last()) + if operations.last() is Begin {
            1nat
        } else {
            0nat
        }
    }
}

impl LatestCleanupView {
    /// The state after one operation.
    pub open spec fn apply(self, operation: CleanupOperation) -> LatestCleanupView {
        match operation {
            CleanupOperation::Invalidate => self.after_invalidate(),
            CleanupOperation::Begin => self.after_begin(),
            CleanupOperation::Complete { generation, text } => self.after_complete(
                generation,
                text,
            ),
            CleanupOperation::Fail { generation } => self.after_fail(generation),
            CleanupOperation::RequestInsert => self.after_request(),
        }
    }

    /// The state after all of `operations`.
    pub open spec fn run(self, operations: Seq<CleanupOperation>) -> LatestCleanupView
        decreases operations.len(),
    {
        if operations.len() == 0 {
            self
        } else {
            self.run(operations.drop_last()).apply(operations.last())
        }
    }
}

/// Every operation keeps the invariant: the target, if there is one, is the newest cleanup. And
/// generations count the cleanups, so that none is ever used twice.
pub proof fn law_target_is_the_newest_cleanup(
    start: LatestCleanupView,
    operations: Seq<CleanupOperation>,
)
    requires
        start.well_formed(),
    ensures
        start.run(operations).well_formed(),
        start.run(operations).last_generation == start.last_generation + count_begins(operations),
    decreases operations.len(),
{
    if operations.len() > 0 {
        law_target_is_the_newest_cleanup(start, operations.drop_last());
    }
}

/// A late completion is harmless: once a cleanup that was begun is no longer awaited, its
/// completion or failure is withheld and changes nothing, whatever happens in between.
pub proof fn law_late_completion_is_harmless(
    start: LatestCleanupView,
    generation: nat,
    operations: Seq<CleanupOperation>,
    text: Seq<char>,
)
    requires
        generation <= start.last_generation,
        !start.awaits(generation),
    ensures
        !start.run(operations).awaits(generation),
        start.run(operations).completion(generation, text) is None,
        start.run(operations).after_complete(generation, text) == start.run(operations),
        start.run(operations).after_fail(generation) == start.run(operations),
        start.last_generation <= start.run(operations).last_generation,
    decreases operations.len(),
{
    if operations.len() > 0 {
        law_late_completion_is_harmless(start, generation, operations.drop_last(), text);
    }
}

/// A newer dictation rejects the completion of every older one, for good; and so does an
/// invalidation.
pub proof fn law_newer_dictation_rejects_late_completions(
    start: LatestCleanupView,
    generation: nat,
    operations: Seq<CleanupOperation>,
    text: Seq<char>,
)
    requires
        start.well_formed(),
        generation <= start.last_generation,
    ensures
        start.after_begin().run(operations).completion(generation, text) is None,
        start.after_begin().run(operations).after_complete(generation, text)
            == start.after_begin().run(operations),
        start.after_invalidate().run(operations).completion(generation, text) is None,
        start.after_invalidate().run(operations).after_complete(generation, text)
            == start.after_invalidate().run(operations),
{
    law_late_completion_is_harmless(start.after_begin(), generation, operations, text);
    law_late_completion_is_harmless(start.after_invalidate(), generation, operations, text);
}

/// A completion is observed at most once.
pub proof fn law_completion_is_observed_once(
    start: LatestCleanupView,
    generation: nat,
    text: Seq<char>,
    operations: Seq<CleanupOperation>,
    other_text: Seq<char>,
)
    requires
        start.well_formed(),
        start.completion(generation, text) is Some,
    ensures
        start.after_complete(generation, text).run(operations).completion(generation, other_text)
            is None,
{
    law_late_completion_is_harmless(
        start.after_complete(generation, text),
        generation,
        operations,
        other_text,
    );
}

/// A completion is observed only for the newest cleanup.
pub proof fn law_only_the_newest_completion_is_observed(
    start: LatestCleanupView,
    generation: nat,
    text: Seq<char>,
)
    requires
        start.well_formed(),
    ensures
        start.completion(generation, text) is Some ==> generation == start.last_generation,
        start.completion(generation, text) matches Some(CompletionView::Insert(inserted))
            ==> inserted == text,
{
}

/// What a completion delivered is what the insert hotkey gets, however often it asks, until
/// another dictation comes.
pub proof fn law_completed_text_is_inserted(
    start: LatestCleanupView,
    generation: nat,
    text: Seq<char>,
    operations: Seq<CleanupOperation>,
)
    requires
        start.awaits(generation),
        stay(operations),
    ensures
        start.after_complete(generation, text).run(operations) == start.after_complete(
            generation,
            text,
        ),
        start.after_complete(generation, text).run(operations).outcome() == OutcomeView::Insert(
            text,
        ),
    decreases operations.len(),
{
    if operations.len() > 0 {
        assert(stay(operations.drop_last()));
        assert(!operations[operations.len() - 1].moves_on());
        law_completed_text_is_inserted(start, generation, text, operations.drop_last());
    }
}

/// A request that comes before the text is remembered, once, and the completion then carries the
/// text. Without a request the completion carries none.
pub proof fn law_completion_carries_the_text_if_asked(
    start: LatestCleanupView,
    operations: Seq<CleanupOperation>,
    text: Seq<char>,
)
    requires
        stay_pending(operations, start.last_generation + 1),
    ensures
        ({
            let generation = start.last_generation + 1;
            let asked = operations.contains(CleanupOperation::RequestInsert);
            let pending = start.after_begin().run(operations);
            &&& pending.target == TargetView::Pending { generation, insert_when_ready: asked }
            &&& pending.outcome() == OutcomeView::Pending
            &&& pending.completion(generation, text) == Some(
                if asked {
                    CompletionView::Insert(text)
                } else {
                    CompletionView::Ready
                },
            )
        }),
    decreases operations.len(),
{
    if operations.len() > 0 {
        let earlier = operations.drop_last();
        let last = operations[operations.len() - 1];
        let request = CleanupOperation::RequestInsert;
        assert(stay_pending(earlier, start.last_generation + 1)) by {
            assert forall|i: int| 0 <= i < earlier.len() implies !(
            #[trigger] earlier[i]).moves_on() && !earlier[i].ends(start.last_generation + 1) by {
                assert(earlier[i] == operations[i]);
            }
        }
        assert(!last.moves_on() && !last.ends(start.last_generation + 1));
        law_completion_carries_the_text_if_asked(start, earlier, text);
        assert(operations.contains(request) <==> earlier.contains(request) || last == request) by {
            if earlier.contains(request) {
                let i = choose|i: int| 0 <= i < earlier.len() && earlier[i] == request;
                assert(operations[i] == request);
            }
            if operations.contains(request) && last != request {
                let i = choose|i: int| 0 <= i < operations.len() && operations[i] == request;
                assert(earlier[i] == request);
            }
        }
    }
}

/// Asking again changes nothing, and is answered alike.
pub proof fn law_request_is_queued_once(start: LatestCleanupView)
    ensures
        start.after_request().after_request() == start.after_request(),
        start.after_request().outcome() == start.outcome(),
{
}

/// The insert hotkey only ever uses the current dictation's result: a text that it gets was
/// delivered by a completion of the newest cleanup, and no other dictation came since.
pub proof fn law_inserted_text_is_of_the_current_dictation(operations: Seq<CleanupOperation>)
    ensures
        LatestCleanupView::initial().run(operations).outcome() matches OutcomeView::Insert(text)
            ==> exists|i: int|
            {
                &&& 0 <= i < operations.len()
                &&& #[trigger] operations[i] == CleanupOperation::Complete {
                    generation: LatestCleanupView::initial().run(operations).last_generation,
                    text,
                }
                &&& stay(operations.skip(i + 1))
            },
    decreases operations.len(),
{
    let start = LatestCleanupView::initial();
    let end = start.run(operations);
    if operations.len() > 0 && end.outcome() is Insert {
        let text = end.outcome()->Insert_0;
        let earlier = operations.drop_last();
        let before = start.run(earlier);
        let last = operations[operations.len() - 1];
        law_inserted_text_is_of_the_current_dictation(earlier);
        law_target_is_the_newest_cleanup(start, earlier);
        if before.outcome() is Insert {
            assert(!last.moves_on());
            assert(end == before);
            let i = choose|i: int|
                {
                    &&& 0 <= i < earlier.len()
                    &&& #[trigger] earlier[i] == CleanupOperation::Complete {
                        generation: before.last_generation,
                        text,
                    }
                    &&& stay(earlier.skip(i + 1))
                };
            assert(operations[i] == earlier[i]);
            assert(stay(operations.skip(i + 1))) by {
                assert forall|j: int| 0 <= j < operations.skip(i + 1).len() implies !(
                #[trigger] operations.skip(i + 1)[j]).moves_on() by {
                    if j < earlier.skip(i + 1).len() {
                        assert(operations.skip(i + 1)[j] == earlier.skip(i + 1)[j]);
                    } else {
                        assert(operations.skip(i + 1)[j] == last);
                    }
                }
            }
        } else {
            let i = operations.len() - 1;
            assert(operations[i] == last);
            assert(operations.skip(i + 1).len() == 0);
            assert(stay(operations.skip(i + 1)));
        }
    }
}

/// A failed cleanup never supplies a text: until another one begins, the insert hotkey gets none.
pub proof fn law_failure_never_supplies_text(
    start: LatestCleanupView,
    generation: nat,
    operations: Seq<CleanupOperation>,
)
    requires
        start.awaits(generation),
        forall|i: int| 0 <= i < operations.len() ==> !(#[trigger] operations[i] is Begin),
    ensures
        ({
            let outcome = start.after_fail(generation).run(operations).outcome();
            let invalidated = operations.contains(CleanupOperation::Invalidate);
            outcome == if invalidated {
                OutcomeView::Empty
            } else {
                OutcomeView::Unavailable
            }
        }),
    decreases operations.len(),
{
    if operations.len() > 0 {
        let earlier = operations.drop_last();
        let last = operations[operations.len() - 1];
        let invalidate = CleanupOperation::Invalidate;
        assert forall|i: int| 0 <= i < earlier.len() implies !(#[trigger] earlier[i] is Begin) by {
            assert(earlier[i] == operations[i]);
        }
        assert(!(last is Begin));
        law_failure_never_supplies_text(start, generation, earlier);
        assert(operations.contains(invalidate) <==> earlier.contains(invalidate) || last
            == invalidate) by {
            if earlier.contains(invalidate) {
                let i = choose|i: int| 0 <= i < earlier.len() && earlier[i] == invalidate;
                assert(operations[i] == invalidate);
            }
            if operations.contains(invalidate) && last != invalidate {
                let i = choose|i: int| 0 <= i < operations.len() && operations[i] == invalidate;
                assert(earlier[i] == invalidate);
            }
        }
    }
}

/// Without a cleanup there is nothing to insert.
pub proof fn law_empty_never_supplies_text(
    start: LatestCleanupView,
    operations: Seq<CleanupOperation>,
)
    requires
        start.target is Empty,
        forall|i: int| 0 <= i < operations.len() ==> !(#[trigger] operations[i] is Begin),
    ensures
        start.run(operations) == start,
        start.run(operations).outcome() == OutcomeView::Empty,
    decreases operations.len(),
{
    if operations.len() > 0 {
        let earlier = operations.drop_last();
        assert forall|i: int| 0 <= i < earlier.len() implies !(#[trigger] earlier[i] is Begin) by {
            assert(earlier[i] == operations[i]);
        }
        assert(!(operations[operations.len() - 1] is Begin));
        law_empty_never_supplies_text(start, earlier);
    }
}

/// Whatever the target was, pending ones included, after an invalidation there is none, and the
/// insert hotkey finds nothing until another cleanup begins. No generation is used or given back.
pub proof fn law_invalidation_leaves_no_target(
    start: LatestCleanupView,
    operations: Seq<CleanupOperation>,
)
    requires
        forall|i: int| 0 <= i < operations.len() ==> !(#[trigger] operations[i] is Begin),
    ensures
        start.after_invalidate().target == TargetView::Empty,
        start.after_invalidate().last_generation == start.last_generation,
        start.after_invalidate().run(operations).outcome() == OutcomeView::Empty,
{
    law_empty_never_supplies_text(start.after_invalidate(), operations);
}

/// Whether no operation after the one at `i` makes way for another dictation.
pub open spec fn last_word(operations: Seq<CleanupOperation>, i: int) -> bool {
    0 <= i < operations.len() && stay(operations.skip(i + 1))
}

/// What stayed the last word stays so over a further operation that does not move on.
proof fn lemma_last_word_lasts(operations: Seq<CleanupOperation>, i: int)
    requires
        operations.len() > 0,
        last_word(operations.drop_last(), i),
        !operations.last().moves_on(),
    ensures
        last_word(operations, i),
{
    let earlier = operations.drop_last();
    assert forall|j: int| 0 <= j < operations.skip(i + 1).len() implies !(
    #[trigger] operations.skip(i + 1)[j]).moves_on() by {
        if j < earlier.skip(i + 1).len() {
            assert(operations.skip(i + 1)[j] == earlier.skip(i + 1)[j]);
        } else {
            assert(operations.skip(i + 1)[j] == operations.last());
        }
    }
}

/// The last operation is the last word.
proof fn lemma_last_is_the_last_word(operations: Seq<CleanupOperation>)
    requires
        operations.len() > 0,
    ensures
        last_word(operations, operations.len() - 1),
{
    assert(operations.skip(operations.len() as int).len() == 0);
}

/// The insert hotkey is told that the cleanup is unavailable only if the newest cleanup was reported
/// as failed, and neither an invalidation nor another cleanup came since.
pub proof fn law_unavailable_means_the_newest_cleanup_failed(operations: Seq<CleanupOperation>)
    ensures
        LatestCleanupView::initial().run(operations).outcome() is Unavailable ==> exists|i: int|
            {
                &&& 0 <= i < operations.len()
                &&& #[trigger] operations[i] == CleanupOperation::Fail {
                    generation: LatestCleanupView::initial().run(operations).last_generation,
                }
                &&& stay(operations.skip(i + 1))
            },
    decreases operations.len(),
{
    let start = LatestCleanupView::initial();
    let end = start.run(operations);
    if operations.len() > 0 && end.outcome() is Unavailable {
        let earlier = operations.drop_last();
        let before = start.run(earlier);
        law_unavailable_means_the_newest_cleanup_failed(earlier);
        law_target_is_the_newest_cleanup(start, earlier);
        if before.outcome() is Unavailable {
            let i = choose|i: int|
                {
                    &&& 0 <= i < earlier.len()
                    &&& #[trigger] earlier[i] == CleanupOperation::Fail {
                        generation: before.last_generation,
                    }
                    &&& stay(earlier.skip(i + 1))
                };
            assert(operations[i] == earlier[i]);
            assert(!operations.last().moves_on());
            lemma_last_word_lasts(operations, i);
        } else {
            lemma_last_is_the_last_word(operations);
            assert(operations[operations.len() - 1] == operations.last());
        }
    }
}

/// The insert hotkey is told to wait only if a cleanup was begun, and since then none other was, no
/// invalidation came, and its completion or failure was not reported.
pub proof fn law_pending_means_the_newest_cleanup_is_under_way(operations: Seq<CleanupOperation>)
    ensures
        LatestCleanupView::initial().run(operations).outcome() is Pending ==> exists|i: int|
            {
                &&& 0 <= i < operations.len()
                &&& #[trigger] operations[i] is Begin
                &&& stay_pending(
                    operations.skip(i + 1),
                    LatestCleanupView::initial().run(operations).last_generation,
                )
            },
    decreases operations.len(),
{
    let start = LatestCleanupView::initial();
    let end = start.run(operations);
    if operations.len() > 0 && end.outcome() is Pending {
        let earlier = operations.drop_last();
        let before = start.run(earlier);
        let last = operations.last();
        let generation = end.last_generation;
        law_pending_means_the_newest_cleanup_is_under_way(earlier);
        law_target_is_the_newest_cleanup(start, earlier);
        if last is Begin {
            let i = operations.len() - 1;
            assert(operations[i] is Begin);
            assert(operations.skip(i + 1).len() == 0);
            assert(stay_pending(operations.skip(i + 1), generation));
        } else {
            assert(before.outcome() is Pending);
            assert(before.last_generation == generation);
            assert(!last.moves_on() && !last.ends(generation));
            let i = choose|i: int|
                {
                    &&& 0 <= i < earlier.len()
                    &&& #[trigger] earlier[i] is Begin
                    &&& stay_pending(earlier.skip(i + 1), generation)
                };
            assert(operations[i] == earlier[i]);
            assert forall|j: int| 0 <= j < operations.skip(i + 1).len() implies !(
            #[trigger] operations.skip(i + 1)[j]).moves_on() && !operations.skip(i + 1)[j].ends(
                generation,
            ) by {
                if j < earlier.skip(i + 1).len() {
                    assert(operations.skip(i + 1)[j] == earlier.skip(i + 1)[j]);
                } else {
                    assert(operations.skip(i + 1)[j] == last);
                }
            }
        }
    }
}

/// The insert hotkey finds nothing only if no cleanup was begun since the beginning or since the
/// last invalidation.
pub proof fn law_empty_means_no_cleanup_was_begun(operations: Seq<CleanupOperation>)
    ensures
        LatestCleanupView::initial().run(operations).outcome() is Empty ==> {
            ||| forall|j: int| 0 <= j < operations.len() ==> !(#[trigger] operations[j] is Begin)
            ||| exists|i: int|
                {
                    &&& 0 <= i < operations.len()
                    &&& #[trigger] operations[i] is Invalidate
                    &&& forall|j: int|
                        i < j < operations.len() ==> !(#[trigger] operations[j] is Begin)
                }
        },
    decreases operations.len(),
{
    let start = LatestCleanupView::initial();
    let end = start.run(operations);
    if operations.len() > 0 && end.outcome() is Empty {
        let earlier = operations.drop_last();
        let last = operations[operations.len() - 1];
        law_empty_means_no_cleanup_was_begun(earlier);
        assert(!(last is Begin));
        assert(forall|j: int| 0 <= j < earlier.len() ==> #[trigger] operations[j] == earlier[j]);
        if !(last is Invalidate) {
            assert(start.run(earlier).outcome() is Empty);
            if !(forall|j: int| 0 <= j < earlier.len() ==> !(#[trigger] earlier[j] is Begin)) {
                let i = choose|i: int|
                    {
                        &&& 0 <= i < earlier.len()
                        &&& #[trigger] earlier[i] is Invalidate
                        &&& forall|j: int|
                            i < j < earlier.len() ==> !(#[trigger] earlier[j] is Begin)
                    };
                assert(operations[i] is Invalidate);
            }
        }
    }
}

/// In the beginning there is no target, and no generation was used.
pub proof fn law_no_cleanup_in_the_beginning()
    ensures
        LatestCleanupView::initial().target == TargetView::Empty,
        LatestCleanupView::initial().last_generation == 0,
{
}

/// A new cleanup takes the next generation, is awaited, and was not asked for, whatever the target
/// was.
pub proof fn law_what_a_beginning_leaves(start: LatestCleanupView)
    ensures
        start.after_begin().last_generation == start.last_generation + 1,
        start.after_begin().target == (TargetView::Pending {
            generation: start.last_generation + 1,
            insert_when_ready: false,
        }),
{
}

/// A completion or a failure is taken exactly if the target is pending with its generation. The
/// completion then makes its text the target, and hands it out exactly if it was asked for; the
/// failure makes the target a failed one. Otherwise neither changes anything, and the completion is
/// withheld.
pub proof fn law_which_endings_are_taken(
    start: LatestCleanupView,
    generation: nat,
    text: Seq<char>,
)
    ensures
        ({
            let taken = start.target is Pending && start.target->Pending_generation == generation;
            &&& start.completion(generation, text) is Some <==> taken
            &&& taken ==> {
                &&& start.after_complete(generation, text).target == TargetView::Ready {
                    generation,
                    text,
                }
                &&& start.after_fail(generation).target == TargetView::Failed { generation }
                &&& start.completion(generation, text)->0 == if start.target->insert_when_ready {
                    CompletionView::Insert(text)
                } else {
                    CompletionView::Ready
                }
            }
            &&& !taken ==> {
                &&& start.after_complete(generation, text).target == start.target
                &&& start.after_fail(generation).target == start.target
            }
            &&& start.after_complete(generation, text).last_generation == start.last_generation
            &&& start.after_fail(generation).last_generation == start.last_generation
        }),
{
}

/// The insert hotkey gets the text of a ready target and nothing of any other; all that asking
/// changes is that a pending target remembers it.
pub proof fn law_what_a_request_gets_and_leaves(start: LatestCleanupView)
    ensures
        start.target is Empty <==> start.outcome() is Empty,
        start.target is Pending <==> start.outcome() is Pending,
        start.target is Failed <==> start.outcome() is Unavailable,
        start.target is Ready <==> start.outcome() is Insert,
        start.target is Ready ==> start.outcome()->Insert_0 == start.target->text,
        start.after_request().last_generation == start.last_generation,
        start.target is Pending ==> start.after_request().target == (TargetView::Pending {
            generation: start.target->Pending_generation,
            insert_when_ready: true,
        }),
        !(start.target is Pending) ==> start.after_request().target == start.target,
{
}

/// The values of outcomes and completions are what they hold, and nothing is left out or made alike.
pub proof fn law_cleanup_values_are_faithful(
    outcome: InsertLatestOutcome,
    completion: Option<LatestCleanupCompletion>,
)
    ensures
        outcome matches InsertLatestOutcome::Insert(text) ==> outcome@ == OutcomeView::Insert(text@),
        outcome is Pending ==> outcome@ == OutcomeView::Pending,
        outcome is Unavailable ==> outcome@ == OutcomeView::Unavailable,
        outcome is Empty ==> outcome@ == OutcomeView::Empty,
        completion is None ==> crate::latest_cleanup::completion_view(completion)
            == None::<CompletionView>,
        completion matches Some(LatestCleanupCompletion::Ready)
            ==> crate::latest_cleanup::completion_view(completion) == Some(CompletionView::Ready),
        completion matches Some(LatestCleanupCompletion::Insert(text))
            ==> crate::latest_cleanup::completion_view(completion) == Some(
            CompletionView::Insert(text@),
        ),
{
}

} // verus!
