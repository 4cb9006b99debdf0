//! What the order of steps guarantees.
//!
//! The theorems here speak of any list of steps that a [`Tracker`] admits
//! from idle, not only of the two plans. They say in terms of the list alone
//! what admission buys: a host read comes after the copy, the submission,
//! the map request and the wait that it depends on, and the staging buffer is
//! released before it is written or mapped again.

use vstd::prelude::*;
use crate::cycle::{lemma_refusal_is_final, reached, Staging, Step, Tracker};

verus! {

/// The steps are admitted one after the other, from an idle tracker.
pub open spec fn admitted(steps: Seq<Step>) -> bool {
    Tracker::idle().run(steps) is Some
}

/// The tracker before step `at` of an admitted list. (Before step
/// `steps.len()`: after the last.)
pub open spec fn before(steps: Seq<Step>, at: int) -> Tracker {
    reached(steps, at).unwrap()
}

/// In an admitted list every step is admitted by the tracker that the steps
/// before it lead to, and leads to the tracker before the next.
pub proof fn lemma_step_at(steps: Seq<Step>, at: int)
    requires
        admitted(steps),
        0 <= at < steps.len(),
    ensures
        reached(steps, at) is Some,
        before(steps, at).admits(steps[at]),
        reached(steps, at + 1) == Some(before(steps, at).after(steps[at])),
{
    let longer = steps.take(at + 1);
    if reached(steps, at + 1) is None {
        lemma_refusal_is_final(Tracker::idle(), steps, at + 1);
    }
    assert(longer.drop_last() =~= steps.take(at));
    assert(longer.last() == steps[at]);
}

/// A recorded copy always belongs to an open recording scope: no list of
/// steps, run from a tracker of which this holds, reaches one of which it
/// does not.
pub proof fn lemma_run_keeps_wf(start: Tracker, steps: Seq<Step>)
    requires
        start.wf(),
    ensures
        start.run(steps) matches Some(end) ==> end.wf(),
    decreases steps.len(),
{
    if steps.len() > 0 {
        lemma_run_keeps_wf(start, steps.drop_last());
    }
}

/// An admitted list starts from an idle tracker.
pub proof fn lemma_starts_idle(steps: Seq<Step>)
    ensures
        reached(steps, 0) == Some(Tracker::idle()),
{
    assert(steps.take(0) =~= Seq::<Step>::empty());
}

/// Where the staging buffer is mapped, a wait came before, and the buffer has
/// been mapped ever since.
proof fn find_wait(steps: Seq<Step>, at: int) -> (wait: int)
    requires
        admitted(steps),
        0 <= at <= steps.len(),
        reached(steps, at) is Some,
        before(steps, at).staging == Staging::Mapped,
    ensures
        0 <= wait < at,
        steps[wait] == Step::Wait,
        forall|k: int| wait < k <= at ==> (#[trigger] before(steps, k)).staging == Staging::Mapped,
    decreases at,
{
    lemma_starts_idle(steps);
    lemma_step_at(steps, at - 1);
    if steps[at - 1] == Step::Wait {
        at - 1
    } else {
        find_wait(steps, at - 1)
    }
}

/// Where a map request is pending, the request came before.
proof fn find_request(steps: Seq<Step>, at: int) -> (request: int)
    requires
        admitted(steps),
        0 <= at <= steps.len(),
        reached(steps, at) is Some,
        before(steps, at).staging == Staging::Requested,
    ensures
        0 <= request < at,
        steps[request] == Step::RequestMap,
    decreases at,
{
    lemma_starts_idle(steps);
    lemma_step_at(steps, at - 1);
    if steps[at - 1] == Step::RequestMap {
        at - 1
    } else {
        find_request(steps, at - 1)
    }
}

/// Where the staging buffer is filled, a submission that carried a copy came
/// before.
proof fn find_submit(steps: Seq<Step>, at: int) -> (submit: int)
    requires
        admitted(steps),
        0 <= at <= steps.len(),
        reached(steps, at) is Some,
        before(steps, at).staging == Staging::Filled,
    ensures
        0 <= submit < at,
        steps[submit] == Step::Submit,
        before(steps, submit).copy_recorded,
    decreases at,
{
    lemma_starts_idle(steps);
    lemma_step_at(steps, at - 1);
    if steps[at - 1] == Step::Submit && before(steps, at - 1).copy_recorded {
        at - 1
    } else {
        find_submit(steps, at - 1)
    }
}

/// Where the open recording scope holds a copy, the copy was recorded before.
proof fn find_copy(steps: Seq<Step>, at: int) -> (copy: int)
    requires
        admitted(steps),
        0 <= at <= steps.len(),
        reached(steps, at) is Some,
        before(steps, at).copy_recorded,
    ensures
        0 <= copy < at,
        steps[copy] is CopyToStaging,
    decreases at,
{
    lemma_starts_idle(steps);
    lemma_step_at(steps, at - 1);
    if steps[at - 1] is CopyToStaging {
        at - 1
    } else {
        find_copy(steps, at - 1)
    }
}

/// Where the staging buffer is mapped or about to be at one point and
/// unmapped at a later one, an unmap lies between.
proof fn find_unmap(steps: Seq<Step>, from: int, to: int) -> (unmap: int)
    requires
        admitted(steps),
        0 <= from <= to <= steps.len(),
        reached(steps, from) is Some,
        reached(steps, to) is Some,
        !before(steps, from).staging_unmapped(),
        before(steps, to).staging_unmapped(),
    ensures
        from <= unmap < to,
        steps[unmap] == Step::Unmap,
    decreases to - from,
{
    lemma_step_at(steps, to - 1);
    if steps[to - 1] == Step::Unmap {
        to - 1
    } else {
        find_unmap(steps, from, to - 1)
    }
}

/// The four steps that a host read depends on, by their places in the list.
pub struct Lineage {
    pub copy: int,
    pub submit: int,
    pub request: int,
    pub wait: int,
}

/// Submit, then await, then read. In an admitted list every read of the
/// staging buffer has, in this order before it, a recorded copy into the
/// buffer, a submission, a map request and a wait for the device; and from
/// that wait up to the read the buffer is neither unmapped nor written.
pub proof fn lemma_read_is_awaited(steps: Seq<Step>, read: int) -> (found: Lineage)
    requires
        admitted(steps),
        0 <= read < steps.len(),
        steps[read] is Read,
    ensures
        0 <= found.copy < found.submit < found.request < found.wait < read,
        steps[found.copy] is CopyToStaging,
        steps[found.submit] == Step::Submit,
        steps[found.request] == Step::RequestMap,
        steps[found.wait] == Step::Wait,
        forall|k: int|
            found.wait < k < read ==> #[trigger] steps[k] != Step::Unmap && !(steps[k]
                is CopyToStaging),
{
    lemma_step_at(steps, read);
    let wait = find_wait(steps, read);
    lemma_step_at(steps, wait);
    let request = find_request(steps, wait);
    lemma_step_at(steps, request);
    let submit = find_submit(steps, request);
    lemma_step_at(steps, submit);
    let copy = find_copy(steps, submit);
    assert forall|k: int| wait < k < read implies #[trigger] steps[k] != Step::Unmap && !(steps[k]
        is CopyToStaging) by {
        lemma_step_at(steps, k);
        assert(before(steps, k).staging == Staging::Mapped);
        assert(before(steps, k + 1).staging == Staging::Mapped);
    }
    Lineage { copy, submit, request, wait }
}

/// Unmap before reuse. In an admitted list, between a map request and a
/// later step that records a write into the staging buffer or asks to map it
/// again, the buffer is unmapped.
pub proof fn lemma_unmap_before_reuse(steps: Seq<Step>, request: int, reuse: int) -> (unmap: int)
    requires
        admitted(steps),
        0 <= request < reuse < steps.len(),
        steps[request] == Step::RequestMap,
        steps[reuse] is CopyToStaging || steps[reuse] == Step::RequestMap,
    ensures
        request < unmap < reuse,
        steps[unmap] == Step::Unmap,
{
    lemma_step_at(steps, request);
    lemma_step_at(steps, reuse);
    find_unmap(steps, request + 1, reuse)
}

/// A submission never writes under a mapping. In an admitted list the staging
/// buffer is unmapped whenever a recording scope that holds a copy into it is
/// submitted, and mapped whenever the host reads it.
pub proof fn lemma_device_and_host_take_turns(steps: Seq<Step>, at: int)
    requires
        admitted(steps),
        0 <= at < steps.len(),
    ensures
        steps[at] == Step::Submit && before(steps, at).copy_recorded ==> before(
            steps,
            at,
        ).staging_unmapped(),
        steps[at] is Read ==> before(steps, at).staging == Staging::Mapped,
        steps[at] is CopyToStaging ==> before(steps, at).staging_unmapped(),
{
    lemma_step_at(steps, at);
}

} // verus!
