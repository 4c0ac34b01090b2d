//! The joiner's bookkeeping. The binary joins its worker handles in list
//! order and records what each join reported; this module turns that list of
//! outcomes into the demo's summary: how many handles were joined, how many
//! completed, and the first worker (in list order) that failed, if any.

use crate::errors::DemoError;
use vstd::prelude::*;

verus! {

/// What joining one worker handle reported.
#[derive(Clone, Copy, Debug, PartialEq, Eq, Structural)]
pub enum WorkerOutcome {
    /// The worker ran to completion.
    Completed,
    /// The worker terminated abnormally.
    Failed,
}

/// What the joiner knows once every handle in the list has been joined.
#[derive(Clone, Copy, Debug, PartialEq, Eq, Structural)]
pub struct JoinSummary {
    /// How many handles were joined: every one in the list.
    pub joined: usize,
    /// How many workers ran to completion.
    pub completed: usize,
    /// The position of the first failed worker in list order, if any failed.
    pub first_failure: Option<usize>,
}

/// How many of the outcomes are completions.
pub open spec fn completed_count(outcomes: Seq<WorkerOutcome>) -> nat
    decreases outcomes.len(),
{
    if outcomes.len() == 0 {
        0
    } else {
        completed_count(outcomes.drop_last()) + if outcomes.last() is Completed {
            1nat
        } else {
            0nat
        }
    }
}

/// Processes the outcomes of joining every handle, in list order, and
/// summarizes them: all handles counted as joined, completions counted, and
/// the earliest failure recorded.
pub fn join_all(outcomes: &Vec<WorkerOutcome>) -> (s: JoinSummary)
    ensures
        s.joined == outcomes@.len(),
        s.completed == completed_count(outcomes@),
        match s.first_failure {
            Some(k) => k < outcomes@.len() && outcomes@[k as int] is Failed && forall|j: int|
                0 <= j < k ==> outcomes@[j] is Completed,
            None => forall|j: int| 0 <= j < outcomes@.len() ==> outcomes@[j] is Completed,
        },
{
    let n: usize = outcomes.len();
    let mut completed: usize = 0;
    let mut first_failure: Option<usize> = None;
    let mut k: usize = 0;
    while k < n
        invariant
            k <= n,
            n == outcomes@.len(),
            completed == completed_count(outcomes@.take(k as int)),
            completed <= k,
            match first_failure {
                Some(f) => f < k && outcomes@[f as int] is Failed && forall|j: int|
                    0 <= j < f ==> outcomes@[j] is Completed,
                None => forall|j: int| 0 <= j < k ==> outcomes@[j] is Completed,
            },
        decreases n - k,
    {
        proof {
            assert(outcomes@.take(k + 1 as int).drop_last() =~= outcomes@.take(k as int));
            assert(outcomes@.take(k + 1 as int).last() == outcomes@[k as int]);
        }
        match outcomes[k] {
            WorkerOutcome::Completed => {
                completed = completed + 1;
            },
            WorkerOutcome::Failed => {
                if first_failure.is_none() {
                    first_failure = Some(k);
                }
            },
        }
        k = k + 1;
    }
    proof {
        assert(outcomes@.take(n as int) =~= outcomes@);
    }
    JoinSummary { joined: n, completed, first_failure }
}

/// The hardened join policy: a round with no failure yields its completion
/// count; a round with one surfaces the first failed worker as a reported,
/// recoverable error instead of aborting.
pub fn join_report(s: &JoinSummary) -> (r: Result<usize, DemoError>)
    ensures
        s.first_failure is None ==> r == Ok::<usize, DemoError>(s.completed),
        forall|k: usize| s.first_failure == Some(k) ==> r == Err::<usize, DemoError>(
            DemoError::WorkerFailed { index: k },
        ),
{
    match s.first_failure {
        None => Ok(s.completed),
        Some(index) => Err(DemoError::WorkerFailed { index }),
    }
}

/// Join returns only after every worker has finished its work: when every
/// handle in the list reports completion, the completion count the joiner
/// observes immediately afterwards equals the number of handles.
pub proof fn lemma_join_counts_all(outcomes: Seq<WorkerOutcome>)
    requires
        forall|k: int| 0 <= k < outcomes.len() ==> outcomes[k] is Completed,
    ensures
        completed_count(outcomes) == outcomes.len(),
    decreases outcomes.len(),
{
    if outcomes.len() > 0 {
        lemma_join_counts_all(outcomes.drop_last());
    }
}

} // verus!
