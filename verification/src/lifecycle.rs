//! Cross-operation laws of the engine. Every entry point of this crate
//! promises, besides its exact contract, that it performs at most one
//! `registry_step` on the group record or one `proposal_step` on the
//! proposal record; this module draws the lifecycle consequences that hold
//! along any sequence of such steps.

use vstd::prelude::*;

use crate::proposal::{proposal_step, MsTransaction, MsTransactionStatus};
use crate::registry::{registry_step, Ms};

verus! {

/// What one engine call may do to a (group, proposal) pair: leave it alone,
/// change only the registry as `registry_step` allows, or change only the
/// proposal as `proposal_step` allows against the current registry.
pub open spec fn engine_step(pre: (Ms, MsTransaction), post: (Ms, MsTransaction)) -> bool {
    ||| (post.1 == pre.1 && registry_step(pre.0, post.0))
    ||| (post.0 == pre.0 && proposal_step(pre.0, pre.1, post.1))
}

/// A sequence of states every neighbouring pair of which is one engine step.
pub open spec fn engine_trace(t: Seq<(Ms, MsTransaction)>) -> bool {
    forall|i: int| 0 <= i < t.len() - 1 ==> #[trigger] engine_step(t[i], t[i + 1])
}

/// An Active proposal overtaken by a membership change: the registry's
/// change marker has reached its number (which its own proposal counter
/// issued, so the counter has reached it too).
pub open spec fn deprecated_active(s: (Ms, MsTransaction)) -> bool {
    &&& s.1.status == MsTransactionStatus::Active
    &&& s.1.transaction_index <= s.0.ms_change_index
    &&& s.1.transaction_index <= s.0.transaction_index
}

/// One engine step cannot rescue a deprecated Active proposal: registry
/// changes only move the counters forward, and every proposal transition
/// out of Active demands a proposal that postdates the change marker.
proof fn lemma_deprecated_active_step(pre: (Ms, MsTransaction), post: (Ms, MsTransaction))
    requires
        engine_step(pre, post),
        deprecated_active(pre),
    ensures
        deprecated_active(post),
{
}

/// Law: a proposal that was activated and then overtaken by a membership
/// change before voting completed can never reach Executed, whatever
/// sequence of engine steps follows.
pub proof fn lemma_deprecated_never_executes(t: Seq<(Ms, MsTransaction)>, k: int)
    requires
        engine_trace(t),
        t.len() > 0,
        deprecated_active(t[0]),
        0 <= k < t.len(),
    ensures
        deprecated_active(t[k]),
        t[k].1.status != MsTransactionStatus::Executed,
    decreases k,
{
    if k > 0 {
        lemma_deprecated_never_executes(t, k - 1);
        let j = k - 1;
        assert(j + 1 == k);
        assert(engine_step(t[j], t[j + 1]));
        lemma_deprecated_active_step(t[j], t[k]);
    }
}

/// Law: sequential execution progress is durable. Along any sequence of
/// engine steps the progress marker never moves backwards: a failed or
/// refused call leaves it untouched, and only a fully successful step
/// advances it.
pub proof fn lemma_progress_never_retreats(t: Seq<(Ms, MsTransaction)>, i: int, k: int)
    requires
        engine_trace(t),
        0 <= i <= k < t.len(),
    ensures
        t[i].1.executed_index <= t[k].1.executed_index,
    decreases k - i,
{
    if i < k {
        lemma_progress_never_retreats(t, i, k - 1);
        let j = k - 1;
        assert(j + 1 == k);
        assert(engine_step(t[j], t[j + 1]));
    }
}

/// Whether a proposal has reached one of its three terminal states.
pub open spec fn terminal(tx: MsTransaction) -> bool {
    ||| tx.status == MsTransactionStatus::Executed
    ||| tx.status == MsTransactionStatus::Rejected
    ||| tx.status == MsTransactionStatus::Cancelled
}

/// Law: the terminal states are final. Once a proposal is Executed, Rejected
/// or Cancelled, no sequence of engine steps changes its record in any way -
/// in particular, a batch is executed at most once.
pub proof fn lemma_terminal_states_are_final(t: Seq<(Ms, MsTransaction)>, i: int, k: int)
    requires
        engine_trace(t),
        0 <= i <= k < t.len(),
        terminal(t[i].1),
    ensures
        t[k].1 == t[i].1,
    decreases k - i,
{
    if i < k {
        lemma_terminal_states_are_final(t, i, k - 1);
        let j = k - 1;
        assert(j + 1 == k);
        assert(engine_step(t[j], t[j + 1]));
    }
}

} // verus!

