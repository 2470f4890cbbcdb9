//! The benchmark plan: which runs are timed, in which order, over which
//! tasks. Timing and reporting are I/O and stay outside the library; the
//! plan itself — four phases over one default cohort, sequential and pooled
//! projections followed by sequential and pooled solves, each over the same
//! number of default tasks — is fixed here.

use vstd::prelude::*;
use crate::pool::Operation;
use crate::pool::Task;
use crate::pool::new_default_task;
use crate::pool::spec_default_task;

verus! {

/// One phase of the benchmark: an operation, whether it runs through the
/// worker pool, and the tasks it processes.
pub struct BenchPhase {
    pub operation: Operation,
    pub use_pool: bool,
    pub tasks: Vec<Task>,
}

/// Whether a phase runs `op`, pooled or sequentially as `pooled` says, over
/// `count` default tasks.
pub open spec fn spec_phase(p: BenchPhase, op: Operation, pooled: bool, count: int) -> bool {
    &&& p.operation == op
    &&& p.use_pool == pooled
    &&& p.tasks@.len() == count
    &&& forall|j: int| 0 <= j < count ==> spec_default_task(#[trigger] p.tasks@[j])
}

/// A list of `count` default tasks.
pub fn default_tasks(count: usize) -> (v: Vec<Task>)
    ensures
        v@.len() == count,
        forall|j: int| 0 <= j < count ==> spec_default_task(#[trigger] v@[j]),
{
    let mut v: Vec<Task> = Vec::new();
    let mut i: usize = 0;
    while i < count
        invariant
            i <= count,
            v@.len() == i,
            forall|j: int| 0 <= j < i ==> spec_default_task(#[trigger] v@[j]),
        decreases count - i,
    {
        v.push(new_default_task());
        i = i + 1;
    }
    v
}

/// The benchmark's plan: sequential projections, pooled projections,
/// sequential solves, pooled solves — four phases, each over `task_count`
/// default tasks.
pub fn benchmark(task_count: usize) -> (plan: Vec<BenchPhase>)
    ensures
        plan@.len() == 4,
        spec_phase(plan@[0], Operation::Illustrate, false, task_count as int),
        spec_phase(plan@[1], Operation::Illustrate, true, task_count as int),
        spec_phase(plan@[2], Operation::Solve, false, task_count as int),
        spec_phase(plan@[3], Operation::Solve, true, task_count as int),
{
    let mut plan: Vec<BenchPhase> = Vec::new();
    plan.push(
        BenchPhase {
            operation: Operation::Illustrate,
            use_pool: false,
            tasks: default_tasks(task_count),
        },
    );
    plan.push(
        BenchPhase {
            operation: Operation::Illustrate,
            use_pool: true,
            tasks: default_tasks(task_count),
        },
    );
    plan.push(
        BenchPhase { operation: Operation::Solve, use_pool: false, tasks: default_tasks(task_count) },
    );
    plan.push(
        BenchPhase { operation: Operation::Solve, use_pool: true, tasks: default_tasks(task_count) },
    );
    plan
}

/// Time spent per task, given a phase's total elapsed nanoseconds.
pub fn per_task_nanos(total_nanos: u64, task_count: u64) -> (r: u64)
    requires
        task_count > 0,
    ensures
        r == total_nanos / task_count,
{
    total_nanos / task_count
}

} // verus!
