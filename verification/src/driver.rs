//! The demo driver's program: the four concurrency walkthroughs in their
//! fixed order, and the progress values the plain spawn/join walkthrough
//! prints. The binary loops over the schedule, pausing for input between
//! steps, and performs each step's spawning and printing.

use vstd::prelude::*;

verus! {

/// How many workers each mutex walkthrough and the read-only walkthrough
/// spawn. The count is fixed: the demos are about the discipline, not the
/// load.
pub const WORKER_COUNT: u64 = 10;

/// The four concurrency walkthroughs, in the order the driver runs them.
#[derive(Clone, Copy, Debug, PartialEq, Eq, Structural)]
pub enum DemoStep {
    /// One worker and the main flow print concurrently; the main flow joins.
    PlainSpawnJoin,
    /// Workers share a counted reference to an immutable value and print it.
    ReadOnlyShare,
    /// Workers increment a lock-protected counter.
    MutexCounter,
    /// Workers append their indices to a lock-protected collection.
    MutexCollection,
}

/// The driver's fixed program: all four walkthroughs, in order.
pub open spec fn demo_sequence() -> Seq<DemoStep> {
    seq![
        DemoStep::PlainSpawnJoin,
        DemoStep::ReadOnlyShare,
        DemoStep::MutexCounter,
        DemoStep::MutexCollection,
    ]
}

/// The step the driver runs after the given one; none after the last.
pub open spec fn step_after(s: DemoStep) -> Option<DemoStep> {
    match s {
        DemoStep::PlainSpawnJoin => Some(DemoStep::ReadOnlyShare),
        DemoStep::ReadOnlyShare => Some(DemoStep::MutexCounter),
        DemoStep::MutexCounter => Some(DemoStep::MutexCollection),
        DemoStep::MutexCollection => None,
    }
}

/// The driver's first step.
pub fn first_step() -> (s: DemoStep)
    ensures
        s == demo_sequence()[0],
{
    DemoStep::PlainSpawnJoin
}

/// The driver's step after the given one, if any is left.
pub fn next_step(s: DemoStep) -> (r: Option<DemoStep>)
    ensures
        r == step_after(s),
{
    match s {
        DemoStep::PlainSpawnJoin => Some(DemoStep::ReadOnlyShare),
        DemoStep::ReadOnlyShare => Some(DemoStep::MutexCounter),
        DemoStep::MutexCounter => Some(DemoStep::MutexCollection),
        DemoStep::MutexCollection => None,
    }
}

/// The driver's whole schedule, for the binary to walk in order.
pub fn demo_schedule() -> (v: Vec<DemoStep>)
    ensures
        v@ == demo_sequence(),
{
    let mut v: Vec<DemoStep> = Vec::new();
    v.push(DemoStep::PlainSpawnJoin);
    v.push(DemoStep::ReadOnlyShare);
    v.push(DemoStep::MutexCounter);
    v.push(DemoStep::MutexCollection);
    proof {
        assert(v@ =~= demo_sequence());
    }
    v
}

/// Stepping from the first step visits each of the four walkthroughs once,
/// in the driver's fixed order, and then stops.
pub proof fn lemma_driver_runs_all_in_order()
    ensures
        demo_sequence().len() == 4,
        demo_sequence()[0] == DemoStep::PlainSpawnJoin,
        step_after(DemoStep::PlainSpawnJoin) == Some(DemoStep::ReadOnlyShare),
        step_after(DemoStep::ReadOnlyShare) == Some(DemoStep::MutexCounter),
        step_after(DemoStep::MutexCounter) == Some(DemoStep::MutexCollection),
        step_after(DemoStep::MutexCollection) is None,
{
}

/// The progress values a bounded counting loop prints: each value from start
/// up to, and not including, end.
pub fn progress_values(start: u64, end: u64) -> (v: Vec<u64>)
    requires
        start <= end,
    ensures
        v@.len() == end - start,
        forall|k: int| 0 <= k < v@.len() ==> v@[k] == start + k,
{
    let mut v: Vec<u64> = Vec::new();
    let mut i: u64 = start;
    while i < end
        invariant
            start <= i <= end,
            v@.len() == i - start,
            forall|k: int| 0 <= k < v@.len() ==> v@[k] == start + k,
        decreases end - i,
    {
        v.push(i);
        i = i + 1;
    }
    v
}

} // verus!
