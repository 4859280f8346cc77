//! Session-wide laws of the orchestrator, proved once and for all over
//! the same spec functions its contracts use.

use vstd::prelude::*;
use crate::manager::{merged_update_id, process_frame_rel, Action, SpircManager};
use crate::protocol::{Frame, MessageType};

verus! {

/// The logical clock after a run of inbound envelopes whose
/// `state_update_id` values are `ids`, starting from `initial`: each
/// envelope merges its value in turn, exactly as the dispatch core does
/// for every kind that does not restamp the clock from the wall clock.
pub open spec fn clock_after(initial: i64, ids: Seq<i64>) -> i64
    decreases ids.len(),
{
    if ids.len() == 0 {
        initial
    } else {
        merged_update_id(clock_after(initial, ids.drop_last()), ids.last())
    }
}

/// Clock monotonicity: after any run of merges the clock is the maximum
/// of the prior local value and every value seen — it never drops below
/// the initial value, dominates every merged value, and is one of them.
pub proof fn lemma_clock_monotonic(initial: i64, ids: Seq<i64>)
    ensures
        clock_after(initial, ids) >= initial,
        forall|i: int| 0 <= i < ids.len() ==> clock_after(initial, ids) >= ids[i],
        clock_after(initial, ids) == initial || exists|i: int|
            0 <= i < ids.len() && clock_after(initial, ids) == ids[i],
    decreases ids.len(),
{
    if ids.len() > 0 {
        let prefix = ids.drop_last();
        lemma_clock_monotonic(initial, prefix);
        assert forall|i: int| 0 <= i < ids.len() implies clock_after(initial, ids)
            >= ids[i] by {
            if i < ids.len() - 1 {
                assert(prefix[i] == ids[i]);
            }
        }
        if clock_after(initial, ids) != initial {
            if clock_after(initial, ids) == ids.last() {
                assert(clock_after(initial, ids) == ids[ids.len() - 1]);
            } else {
                let i = choose|i: int|
                    0 <= i < prefix.len() && clock_after(initial, prefix) == prefix[i];
                assert(clock_after(initial, ids) == ids[i]);
            }
        }
    }
}

/// Each dispatched envelope leaves the clock at the merge of the prior
/// value and the envelope's — except a Load, which restamps it from the
/// wall clock, so there the clock rises only while the wall clock is not
/// behind it.
pub proof fn lemma_dispatch_clock_monotonic(
    pre: SpircManager,
    post: SpircManager,
    frame: Frame,
    now: u64,
    acts: Seq<Action>,
)
    requires
        process_frame_rel(pre, post, frame, now, acts),
        frame.typ == MessageType::Load ==> now as i64 >= pre.state.update_id,
    ensures
        post.state.update_id >= pre.state.update_id,
        frame.typ != MessageType::Load ==> post.state.update_id == merged_update_id(
            pre.state.update_id,
            frame.state_update_id,
        ),
{
}

/// The clock never decreases: merging one more envelope can only raise
/// it.
pub proof fn lemma_clock_step(initial: i64, ids: Seq<i64>, next: i64)
    ensures
        clock_after(initial, ids.push(next)) >= clock_after(initial, ids),
{
    assert(ids.push(next).drop_last() =~= ids);
    assert(ids.push(next).last() == next);
}

/// Sequencing: a run of sends whose stamped values are each one more
/// than their position — exactly what the send counter's contract
/// guarantees from a fresh orchestrator — carries the values `1..=N`
/// with no repeats and no gaps.
pub proof fn lemma_sequencing(sent: Seq<u32>)
    requires
        forall|i: int| 0 <= i < sent.len() ==> sent[i] == i + 1,
    ensures
        forall|i: int, j: int| 0 <= i < j < sent.len() ==> sent[i] != sent[j],
        forall|v: u32| 1 <= v <= sent.len() ==> #[trigger] sent.contains(v),
{
    assert forall|v: u32| 1 <= v <= sent.len() implies #[trigger] sent.contains(v) by {
        assert(sent[v - 1] == v);
    }
}

} // verus!
