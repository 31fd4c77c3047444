use vector_stats::driver::{next_phase, Phase, StepOutcome};

#[test]
fn collection_failure_is_not_fatal() {
    assert_eq!(next_phase(Phase::CreateCollection, StepOutcome::Failed, 3), Phase::Upsert(0));
    assert_eq!(next_phase(Phase::CreateCollection, StepOutcome::Succeeded, 3), Phase::Upsert(0));
    assert_eq!(next_phase(Phase::CreateCollection, StepOutcome::Failed, 0), Phase::Search);
}

#[test]
fn upserts_run_in_order_then_search() {
    assert_eq!(next_phase(Phase::Upsert(0), StepOutcome::Succeeded, 3), Phase::Upsert(1));
    assert_eq!(next_phase(Phase::Upsert(1), StepOutcome::Succeeded, 3), Phase::Upsert(2));
    assert_eq!(next_phase(Phase::Upsert(2), StepOutcome::Succeeded, 3), Phase::Search);
    assert_eq!(next_phase(Phase::Search, StepOutcome::Succeeded, 3), Phase::Finished);
}

#[test]
fn upsert_or_search_failure_is_fatal() {
    assert_eq!(next_phase(Phase::Upsert(1), StepOutcome::Failed, 3), Phase::Failed);
    assert_eq!(next_phase(Phase::Search, StepOutcome::Failed, 3), Phase::Failed);
    assert_eq!(next_phase(Phase::Failed, StepOutcome::Succeeded, 3), Phase::Failed);
    assert_eq!(next_phase(Phase::Finished, StepOutcome::Failed, 3), Phase::Finished);
}
