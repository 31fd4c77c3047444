//! The order of the store operations, and which failures end the run.
use vstd::prelude::*;

verus! {

/// The step the driver is about to run, or how the run ended.
#[derive(Clone, Copy, Debug, PartialEq, Eq, Structural)]
pub enum Phase {
    /// Create the collection.
    CreateCollection,
    /// Upsert the record at this index.
    Upsert(usize),
    /// Run the query.
    Search,
    /// Every step succeeded or was allowed to fail.
    Finished,
    /// A step failed that the run cannot go on without.
    Failed,
}

/// What came of the step just run.
#[derive(Clone, Copy, Debug, PartialEq, Eq, Structural)]
pub enum StepOutcome {
    Succeeded,
    Failed,
}

/// A failure of this step ends the run; a failure to create the collection
/// does not, since it may exist from an earlier run.
pub open spec fn is_fatal(phase: Phase) -> bool {
    match phase {
        Phase::Upsert(_) | Phase::Search => true,
        _ => false,
    }
}

/// Upsert the record at `index` if there is one among `n_records`, else
/// run the query.
pub open spec fn upsert_or_search(index: int, n_records: int) -> Phase {
    if index < n_records {
        Phase::Upsert(index as usize)
    } else {
        Phase::Search
    }
}

/// The phase that follows `phase` once its step has had `outcome`, with
/// `n_records` records to upsert one at a time.
pub fn next_phase(phase: Phase, outcome: StepOutcome, n_records: usize) -> (r: Phase)
    ensures
        phase == Phase::CreateCollection ==> r == upsert_or_search(0, n_records as int),
        is_fatal(phase) && outcome == StepOutcome::Failed ==> r == Phase::Failed,
        (phase matches Phase::Upsert(i) && outcome == StepOutcome::Succeeded) ==> r == upsert_or_search(
            phase->Upsert_0 + 1,
            n_records as int,
        ),
        phase == Phase::Search && outcome == StepOutcome::Succeeded ==> r == Phase::Finished,
        phase == Phase::Finished || phase == Phase::Failed ==> r == phase,
{
    match phase {
        Phase::CreateCollection => {
            if n_records > 0 {
                Phase::Upsert(0)
            } else {
                Phase::Search
            }
        },
        Phase::Upsert(i) => {
            match outcome {
                StepOutcome::Failed => Phase::Failed,
                StepOutcome::Succeeded => {
                    if i < n_records && i + 1 < n_records {
                        Phase::Upsert(i + 1)
                    } else {
                        Phase::Search
                    }
                },
            }
        },
        Phase::Search => {
            match outcome {
                StepOutcome::Failed => Phase::Failed,
                StepOutcome::Succeeded => Phase::Finished,
            }
        },
        Phase::Finished => Phase::Finished,
        Phase::Failed => Phase::Failed,
    }
}

} // verus!
