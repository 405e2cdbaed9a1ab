use dictation::latest_cleanup::{
    InsertLatestOutcome, LatestCleanupCompletion, LatestCleanupCoordinator,
};

#[test]
fn ready_result_is_inserted() {
    let mut coordinator = LatestCleanupCoordinator::new();
    let generation = coordinator.begin();
    assert_eq!(
        coordinator.complete(generation, "Cleaned".into()),
        Some(LatestCleanupCompletion::Ready)
    );
    assert_eq!(
        coordinator.request_insert(),
        InsertLatestOutcome::Insert("Cleaned".into())
    );
}

#[test]
fn pending_insert_is_queued_once_and_completed_once() {
    let mut coordinator = LatestCleanupCoordinator::new();
    let generation = coordinator.begin();
    assert_eq!(coordinator.request_insert(), InsertLatestOutcome::Pending);
    assert_eq!(coordinator.request_insert(), InsertLatestOutcome::Pending);
    assert_eq!(
        coordinator.complete(generation, "Cleaned".into()),
        Some(LatestCleanupCompletion::Insert("Cleaned".into()))
    );
    assert_eq!(
        coordinator.request_insert(),
        InsertLatestOutcome::Insert("Cleaned".into())
    );
}

#[test]
fn failure_and_empty_never_supply_text() {
    let mut coordinator = LatestCleanupCoordinator::new();
    assert_eq!(coordinator.request_insert(), InsertLatestOutcome::Empty);
    let generation = coordinator.begin();
    coordinator.fail(generation);
    assert_eq!(
        coordinator.request_insert(),
        InsertLatestOutcome::Unavailable
    );
}

#[test]
fn newer_dictation_rejects_a_late_completion() {
    let mut coordinator = LatestCleanupCoordinator::new();
    let first = coordinator.begin();
    coordinator.invalidate();
    let second = coordinator.begin();
    assert_eq!(coordinator.complete(first, "Old".into()), None);
    assert_eq!(
        coordinator.complete(second, "New".into()),
        Some(LatestCleanupCompletion::Ready)
    );
    assert_eq!(
        coordinator.request_insert(),
        InsertLatestOutcome::Insert("New".into())
    );
}

#[test]
fn generations_count_up_from_one() {
    let mut coordinator = LatestCleanupCoordinator::default();
    assert!(coordinator.can_begin());
    assert_eq!(coordinator.begin(), 1);
    assert_eq!(coordinator.begin(), 2);
    coordinator.invalidate();
    assert_eq!(coordinator.begin(), 3);
}

#[test]
fn a_completion_is_delivered_once() {
    let mut coordinator = LatestCleanupCoordinator::new();
    let generation = coordinator.begin();
    assert_eq!(
        coordinator.complete(generation, "First".into()),
        Some(LatestCleanupCompletion::Ready)
    );
    assert_eq!(coordinator.complete(generation, "Second".into()), None);
    assert_eq!(
        coordinator.request_insert(),
        InsertLatestOutcome::Insert("First".into())
    );
}

#[test]
fn a_late_failure_leaves_the_newer_cleanup_alone() {
    let mut coordinator = LatestCleanupCoordinator::new();
    let first = coordinator.begin();
    let second = coordinator.begin();
    coordinator.fail(first);
    assert_eq!(coordinator.request_insert(), InsertLatestOutcome::Pending);
    assert_eq!(
        coordinator.complete(second, "New".into()),
        Some(LatestCleanupCompletion::Insert("New".into()))
    );
}

#[test]
fn a_failed_cleanup_cannot_be_completed() {
    let mut coordinator = LatestCleanupCoordinator::new();
    let generation = coordinator.begin();
    coordinator.fail(generation);
    assert_eq!(coordinator.complete(generation, "Late".into()), None);
    assert_eq!(
        coordinator.request_insert(),
        InsertLatestOutcome::Unavailable
    );
}

#[test]
fn invalidation_takes_a_ready_text_away() {
    let mut coordinator = LatestCleanupCoordinator::new();
    let generation = coordinator.begin();
    coordinator.complete(generation, "Cleaned".into());
    coordinator.invalidate();
    assert_eq!(coordinator.request_insert(), InsertLatestOutcome::Empty);
    assert_eq!(coordinator.complete(generation, "Cleaned".into()), None);
}

#[test]
fn a_new_cleanup_forgets_an_earlier_request() {
    let mut coordinator = LatestCleanupCoordinator::new();
    coordinator.begin();
    assert_eq!(coordinator.request_insert(), InsertLatestOutcome::Pending);
    let second = coordinator.begin();
    assert_eq!(
        coordinator.complete(second, "New".into()),
        Some(LatestCleanupCompletion::Ready)
    );
}

#[test]
fn outcomes_and_completions_can_be_copied() {
    let outcome = InsertLatestOutcome::Insert("Cleaned".into());
    assert_eq!(outcome.clone(), outcome);
    assert_ne!(InsertLatestOutcome::Pending.clone(), outcome);
    let completion = LatestCleanupCompletion::Insert("Cleaned".into());
    assert_eq!(completion.clone(), completion);
    assert_ne!(LatestCleanupCompletion::Ready.clone(), completion);
}
