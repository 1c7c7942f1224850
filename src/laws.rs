//! Properties of whole batches, stated over the models of `batch`.

use crate::batch::{
    all_reported, failure_count, files_of, is_success, success_count, InputEntry,
};
use crate::job::{Config, JobResult, planned_output, resolved_format, stem_of};
use vstd::prelude::*;

verus! {

proof fn lemma_counts_of_reported(slots: Seq<Option<JobResult>>)
    requires
        all_reported(slots),
    ensures
        success_count(slots) + failure_count(slots) == slots.len(),
    decreases slots.len(),
{
    if slots.len() > 0 {
        let rest = slots.drop_last();
        assert forall|i: int| 0 <= i < rest.len() implies #[trigger] rest[i] is Some by {
            assert(rest[i] == slots[i]);
        }
        lemma_counts_of_reported(rest);
        assert(slots[slots.len() - 1] is Some);
    }
}

/// Once every job of a batch sized by the discovered files has reported,
/// the batch holds exactly one result, a success or a failure, per file found
/// across all inputs: a file input counts once, a directory by its files.
pub proof fn lemma_one_result_per_file(entries: Seq<InputEntry>, slots: Seq<Option<JobResult>>)
    requires
        slots.len() == files_of(entries).len(),
        all_reported(slots),
    ensures
        success_count(slots) + failure_count(slots) == files_of(entries).len(),
{
    lemma_counts_of_reported(slots);
}

proof fn lemma_success_count_update(slots: Seq<Option<JobResult>>, j: int, x: Option<JobResult>)
    requires
        0 <= j < slots.len(),
    ensures
        success_count(slots.update(j, x)) + (if is_success(slots[j]) {
            1int
        } else {
            0int
        }) == success_count(slots) + (if is_success(x) {
            1int
        } else {
            0int
        }),
    decreases slots.len(),
{
    let u = slots.update(j, x);
    if j == slots.len() - 1 {
        assert(u.drop_last() =~= slots.drop_last());
    } else {
        assert(u.drop_last() =~= slots.drop_last().update(j, x));
        lemma_success_count_update(slots.drop_last(), j, x);
    }
}

/// A job's failure takes nothing from its siblings: recording a failure for
/// job `j` leaves every other job's result as it was, so a sibling `i` that
/// succeeded still holds its success, and the number of successes does not
/// drop.
pub proof fn lemma_failure_keeps_sibling_success(
    slots: Seq<Option<JobResult>>,
    i: int,
    j: int,
    failure: JobResult,
)
    requires
        0 <= i < slots.len(),
        0 <= j < slots.len(),
        i != j,
        slots[j] is None,
        failure.outcome is Failure,
    ensures
        slots.update(j, Some(failure))[i] == slots[i],
        is_success(slots[i]) ==> is_success(slots.update(j, Some(failure))[i]),
        success_count(slots.update(j, Some(failure))) == success_count(slots),
{
    lemma_success_count_update(slots, j, Some(failure));
}

/// Outputs are placed flat in the target directory: where a job's output
/// goes depends on its source only through the source's stem and resolved
/// format, so sources in different input directories with the same stem and
/// format are written to the same place, and the input directory never
/// appears in the output path.
pub proof fn lemma_outputs_are_flat(config: Config, a: Seq<char>, b: Seq<char>)
    requires
        stem_of(a) == stem_of(b),
        resolved_format(a, config) == resolved_format(b, config),
    ensures
        planned_output(a, config) == planned_output(b, config),
{
}

} // verus!
