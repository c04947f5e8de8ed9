//! The proposal store: the transaction lifecycle state machine and the
//! bookkeeping of who voted which way. A proposal moves
//! Draft -> Active -> ExecuteReady -> Executed, with the alternate terminal
//! states Cancelled and Rejected; every vote is re-validated against the
//! current registry, never a cached copy.

use vstd::prelude::*;
use vstd::seq_lib::seq_to_set_is_finite;
use vstd::set_lib::{lemma_len_subset, lemma_set_disjoint_lens};

use crate::authority::{default_authority_of, derive_default_authority};
use crate::errors::GraphsError;
use crate::registry::{registry_step, Ms};

verus! {

/// Lifecycle state of a proposal.
#[derive(Clone, Copy, Debug, PartialEq, Eq, Structural)]
pub enum MsTransactionStatus {
    /// Operations may still be attached.
    Draft,
    /// Members may vote.
    Active,
    /// Quorum reached; awaiting execution (or cancellation).
    ExecuteReady,
    /// All attached operations carried out.
    Executed,
    /// Enough rejections that approval can no longer reach the threshold.
    Rejected,
    /// A threshold of members voted to cancel after quorum.
    Cancelled,
}

/// One proposal: a unit of work requiring quorum approval before execution.
#[derive(Clone, Debug)]
pub struct MsTransaction {
    /// The member who created (and may activate) the proposal.
    pub creator: u64,
    /// Creation key of the owning group.
    pub ms: u64,
    /// This proposal's number, sequential per group.
    pub transaction_index: u32,
    /// Index of the default delegated authority this proposal acts as.
    pub authority_index: u32,
    /// Derivation bump of that default authority, bound at creation.
    pub authority_bump: u8,
    /// Lifecycle state.
    pub status: MsTransactionStatus,
    /// Count of attached operations.
    pub instruction_index: u8,
    /// Progress marker for sequential execution; zero means none executed.
    pub executed_index: u8,
    /// Members holding a standing approval vote.
    pub approved: Vec<u64>,
    /// Members holding a standing rejection vote.
    pub rejected: Vec<u64>,
    /// Members who voted to cancel after quorum.
    pub cancelled: Vec<u64>,
}

impl MsTransaction {
    /// The proposal invariant: each vote list is duplicate-free, no member
    /// holds both a standing approval and a standing rejection, and the
    /// execution progress marker never passes the operation count.
    pub open spec fn wf(self) -> bool {
        &&& self.approved@.no_duplicates()
        &&& self.rejected@.no_duplicates()
        &&& self.cancelled@.no_duplicates()
        &&& forall|m: u64|
            !(#[trigger] self.approved@.contains(m) && self.rejected@.contains(m))
        &&& self.executed_index <= self.instruction_index
    }

    /// True when this proposal was created at or before the group's last
    /// membership change, which permanently disqualifies it.
    pub open spec fn deprecated(self, ms: Ms) -> bool {
        self.transaction_index <= ms.ms_change_index
    }
}

/// What any one engine call may do to a proposal, given the registry it is
/// checked against: its identity is fixed; activation and voting demand a
/// proposal that postdates the last membership change; a deprecated Active
/// proposal cannot change at all; only ExecuteReady can reach Executed; and
/// neither the operation count nor the execution progress marker ever moves
/// backwards.
pub open spec fn proposal_step(ms: Ms, pre: MsTransaction, post: MsTransaction) -> bool {
    &&& post.transaction_index == pre.transaction_index
    &&& post.ms == pre.ms
    &&& pre.executed_index <= post.executed_index
    &&& pre.instruction_index <= post.instruction_index
    &&& match pre.status {
        MsTransactionStatus::Draft => post.status == MsTransactionStatus::Draft || (post.status
            == MsTransactionStatus::Active && pre.transaction_index > ms.ms_change_index),
        MsTransactionStatus::Active => if pre.transaction_index > ms.ms_change_index {
            post.status == MsTransactionStatus::Active || post.status
                == MsTransactionStatus::ExecuteReady || post.status
                == MsTransactionStatus::Rejected
        } else {
            post == pre
        },
        MsTransactionStatus::ExecuteReady => post.status == MsTransactionStatus::ExecuteReady
            || post.status == MsTransactionStatus::Cancelled || post.status
            == MsTransactionStatus::Executed,
        _ => post == pre,
    }
}

/// Position of the first occurrence of `member` in a vote list.
fn position_of(v: &Vec<u64>, member: u64) -> (r: Option<usize>)
    ensures
        match r {
            Some(i) => i < v@.len() && v@[i as int] == member && (forall|j: int|
                0 <= j < i ==> v@[j] != member),
            None => !v@.contains(member),
        },
{
    let mut i: usize = 0;
    while i < v.len()
        invariant
            i <= v@.len(),
            forall|j: int| 0 <= j < i ==> v@[j] != member,
        decreases v@.len() - i,
    {
        if v[i] == member {
            return Some(i);
        }
        i += 1;
    }
    None
}

/// Removes `member`'s standing vote from a duplicate-free vote list, if any.
fn remove_vote(votes: &mut Vec<u64>, member: u64)
    requires
        old(votes)@.no_duplicates(),
    ensures
        final(votes)@ == old(votes)@.remove_value(member),
        final(votes)@.no_duplicates(),
        !final(votes)@.contains(member),
        forall|m: u64|
            m != member ==> (#[trigger] final(votes)@.contains(m) <==> old(votes)@.contains(m)),
        final(votes)@.len() == old(votes)@.len() - (if old(votes)@.contains(member) {
            1int
        } else {
            0int
        }),
{
    let ghost orig = votes@;
    match position_of(votes, member) {
        Some(i) => {
            votes.remove(i);
            proof {
                orig.index_of_first_ensures(member);
                let idx = orig.index_of_first(member).unwrap();
                assert(idx == i);
                let post = votes@;
                assert forall|m: u64| post.contains(m) implies (m == member ==> false) && (m
                    != member ==> orig.contains(m)) by {
                    let w = choose|w: int| 0 <= w < post.len() && post[w] == m;
                    if w < i {
                        assert(orig[w] == m);
                    } else {
                        assert(orig[w + 1] == m);
                    }
                }
                assert forall|m: u64| m != member && orig.contains(m) implies post.contains(
                    m,
                ) by {
                    let w = choose|w: int| 0 <= w < orig.len() && orig[w] == m;
                    if w < i {
                        assert(post[w] == m);
                    } else {
                        assert(w != i);
                        assert(post[w - 1] == m);
                    }
                }
                assert forall|a: int, b: int| 0 <= a < b < post.len() implies post[a]
                    != post[b] by {
                    let oa: int = if a < i {
                        a
                    } else {
                        a + 1
                    };
                    let ob: int = if b < i {
                        b
                    } else {
                        b + 1
                    };
                    assert(post[a] == orig[oa] && post[b] == orig[ob]);
                }
            }
        },
        None => {
            proof {
                orig.index_of_first_ensures(member);
            }
        },
    }
}

/// Records `member`'s vote in a duplicate-free vote list unless it already
/// stands there.
fn add_vote(votes: &mut Vec<u64>, member: u64)
    requires
        old(votes)@.no_duplicates(),
    ensures
        final(votes)@ == (if old(votes)@.contains(member) {
            old(votes)@
        } else {
            old(votes)@.push(member)
        }),
        final(votes)@.no_duplicates(),
        final(votes)@.contains(member),
        forall|m: u64|
            m != member ==> (#[trigger] final(votes)@.contains(m) <==> old(votes)@.contains(m)),
        final(votes)@.len() == old(votes)@.len() + (if old(votes)@.contains(member) {
            0int
        } else {
            1int
        }),
{
    let ghost orig = votes@;
    match position_of(votes, member) {
        Some(_) => {
        },
        None => {
            votes.push(member);
            proof {
                let post = votes@;
                assert(post[post.len() - 1] == member);
                assert forall|m: u64| m != member && post.contains(m) implies orig.contains(
                    m,
                ) by {
                    let w = choose|w: int| 0 <= w < post.len() && post[w] == m;
                    assert(w < orig.len());
                    assert(orig[w] == m);
                }
                assert forall|m: u64| m != member && orig.contains(m) implies post.contains(
                    m,
                ) by {
                    let w = choose|w: int| 0 <= w < orig.len() && orig[w] == m;
                    assert(post[w] == m);
                }
            }
        },
    }
}

/// Law: a member never stands in both the approved and the rejected set of
/// one well-formed proposal; the vote-recording operations below keep it so.
pub proof fn lemma_votes_exclusive(tx: MsTransaction, member: u64)
    requires
        tx.wf(),
    ensures
        !(tx.approved@.contains(member) && tx.rejected@.contains(member)),
{
}

/// Law: quorum math. Once the standing rejections exceed the cutoff
/// `|members| - threshold`, the approvals - which can only come from members
/// not holding a rejection - can no longer mathematically reach the
/// threshold.
pub proof fn lemma_rejection_cutoff(ms: Ms, tx: MsTransaction)
    requires
        ms.wf(),
        tx.wf(),
        tx.rejected@.len() > ms.keys@.len() - ms.threshold as int,
        forall|m: u64| #[trigger] tx.approved@.contains(m) ==> ms.keys@.contains(m),
        forall|m: u64| #[trigger] tx.rejected@.contains(m) ==> ms.keys@.contains(m),
    ensures
        tx.approved@.len() < ms.threshold as int,
{
    broadcast use seq_to_set_is_finite;

    let a = tx.approved@.to_set();
    let r = tx.rejected@.to_set();
    let k = ms.keys@.to_set();
    tx.approved@.unique_seq_to_set();
    tx.rejected@.unique_seq_to_set();
    assert(ms.keys@.no_duplicates()) by {
        assert forall|i: int, j: int|
            0 <= i < ms.keys@.len() && 0 <= j < ms.keys@.len() && i != j implies ms.keys@[i]
            != ms.keys@[j] by {
            if i < j {
                assert(ms.keys@[i] < ms.keys@[j]);
            } else {
                assert(ms.keys@[j] < ms.keys@[i]);
            }
        }
    }
    ms.keys@.unique_seq_to_set();
    assert(a.disjoint(r)) by {
        assert forall|x: u64| a.contains(x) implies !r.contains(x) by {
            assert(tx.approved@.contains(x));
        }
    }
    lemma_set_disjoint_lens(a, r);
    assert((a + r).subset_of(k)) by {
        assert forall|x: u64| (a + r).contains(x) implies k.contains(x) by {
            if a.contains(x) {
                assert(tx.approved@.contains(x));
                assert(ms.keys@.contains(x));
            } else {
                assert(tx.rejected@.contains(x));
                assert(ms.keys@.contains(x));
            }
        }
    }
    lemma_len_subset(a + r, k);
}

/// Creates a proposal in Draft, bound to the group's default delegated
/// authority for `authority_index`, and issues it the next proposal number.
pub fn create_transaction(
    ms: &mut Ms,
    creator: u64,
    authority_index: u32,
    authority_bump: u8,
) -> (r: Result<MsTransaction, GraphsError>)
    requires
        old(ms).wf(),
        old(ms).transaction_index < u32::MAX,
    ensures
        final(ms).wf(),
        registry_step(*old(ms), *final(ms)),
        match r {
            Ok(tx) => {
                &&& old(ms).keys@.contains(creator)
                &&& *final(ms) == (Ms {
                    transaction_index: (old(ms).transaction_index + 1) as u32,
                    ..*old(ms)
                })
                &&& tx == (MsTransaction {
                    creator,
                    ms: old(ms).create_key,
                    transaction_index: (old(ms).transaction_index + 1) as u32,
                    authority_index,
                    authority_bump,
                    status: MsTransactionStatus::Draft,
                    instruction_index: 0,
                    executed_index: 0,
                    approved: tx.approved,
                    rejected: tx.rejected,
                    cancelled: tx.cancelled,
                })
                &&& tx.approved@ == Seq::<u64>::empty()
                &&& tx.rejected@ == Seq::<u64>::empty()
                &&& tx.cancelled@ == Seq::<u64>::empty()
                &&& tx.wf()
            },
            Err(e) => {
                &&& *final(ms) == *old(ms)
                &&& e == GraphsError::KeyNotInMultisig
                &&& !old(ms).keys@.contains(creator)
            },
        },
{
    if ms.is_member(creator).is_none() {
        return Err(GraphsError::KeyNotInMultisig);
    }
    ms.transaction_index = ms.transaction_index + 1;
    Ok(
        MsTransaction {
            creator,
            ms: ms.create_key,
            transaction_index: ms.transaction_index,
            authority_index,
            authority_bump,
            status: MsTransactionStatus::Draft,
            instruction_index: 0,
            executed_index: 0,
            approved: Vec::new(),
            rejected: Vec::new(),
            cancelled: Vec::new(),
        },
    )
}

/// Creates a proposal exactly as `create_transaction` does, first deriving
/// the bump of the group-scoped authority the proposal will act as, from
/// the group's record address and the engine's program id. Nothing is
/// issued - and the registry is untouched - in the statistically improbable
/// event that the derivation finds no bump.
pub fn create_transaction_with_derived_authority(
    ms: &mut Ms,
    ms_address: &[u8; 32],
    program: &[u8; 32],
    creator: u64,
    authority_index: u32,
) -> (r: Option<Result<MsTransaction, GraphsError>>)
    requires
        old(ms).wf(),
        old(ms).transaction_index < u32::MAX,
    ensures
        final(ms).wf(),
        registry_step(*old(ms), *final(ms)),
        match r {
            None => {
                &&& *final(ms) == *old(ms)
                &&& default_authority_of(ms_address@, authority_index, program@) is None
            },
            Some(inner) => {
                &&& default_authority_of(ms_address@, authority_index, program@) is Some
                &&& match inner {
                    Ok(tx) => {
                        &&& old(ms).keys@.contains(creator)
                        &&& *final(ms) == (Ms {
                            transaction_index: (old(ms).transaction_index + 1) as u32,
                            ..*old(ms)
                        })
                        &&& tx.wf()
                        &&& tx.creator == creator
                        &&& tx.ms == old(ms).create_key
                        &&& tx.transaction_index == final(ms).transaction_index
                        &&& tx.authority_index == authority_index
                        &&& (match default_authority_of(ms_address@, authority_index, program@) {
                            Some(p) => tx.authority_bump == p.1,
                            None => false,
                        })
                        &&& tx.status == MsTransactionStatus::Draft
                        &&& tx.instruction_index == 0
                        &&& tx.executed_index == 0
                        &&& tx.approved@ == Seq::<u64>::empty()
                        &&& tx.rejected@ == Seq::<u64>::empty()
                        &&& tx.cancelled@ == Seq::<u64>::empty()
                    },
                    Err(e) => {
                        &&& *final(ms) == *old(ms)
                        &&& e == GraphsError::KeyNotInMultisig
                        &&& !old(ms).keys@.contains(creator)
                    },
                }
            },
        },
{
    match derive_default_authority(ms_address, authority_index, program) {
        None => None,
        Some(derived) => Some(create_transaction(ms, creator, authority_index, derived.1)),
    }
}

/// Activates a Draft proposal so members may vote. Only the creator may
/// activate; a proposal that predates the last membership change is refused
/// for good. A signer other than the recorded creator, or a proposal bound
/// to another group, is treated as a mismatched record reference.
pub fn activate_transaction(ms: &Ms, tx: &mut MsTransaction, creator: u64) -> (r: Result<
    (),
    GraphsError,
>)
    requires
        ms.wf(),
        old(tx).wf(),
    ensures
        final(tx).wf(),
        proposal_step(*ms, *old(tx), *final(tx)),
        match r {
            Ok(()) => {
                &&& ms.keys@.contains(creator)
                &&& creator == old(tx).creator
                &&& old(tx).status == MsTransactionStatus::Draft
                &&& !old(tx).deprecated(*ms)
                &&& old(tx).ms == ms.create_key
                &&& *final(tx) == (MsTransaction {
                    status: MsTransactionStatus::Active,
                    ..*old(tx)
                })
            },
            Err(e) => {
                &&& *final(tx) == *old(tx)
                &&& (e == GraphsError::KeyNotInMultisig <==> !ms.keys@.contains(creator))
                &&& (e == GraphsError::InvalidTransactionState <==> (ms.keys@.contains(creator)
                    && creator == old(tx).creator && old(tx).status
                    != MsTransactionStatus::Draft))
                &&& (e == GraphsError::DeprecatedTransaction <==> (ms.keys@.contains(creator)
                    && creator == old(tx).creator && old(tx).status
                    == MsTransactionStatus::Draft && old(tx).deprecated(*ms)))
                &&& (e == GraphsError::InvalidInstructionAccount <==> (ms.keys@.contains(creator)
                    && (creator != old(tx).creator || (creator == old(tx).creator && old(
                    tx,
                ).status == MsTransactionStatus::Draft && !old(tx).deprecated(*ms) && old(tx).ms
                    != ms.create_key))))
                &&& (e == GraphsError::KeyNotInMultisig || e
                    == GraphsError::InvalidTransactionState || e
                    == GraphsError::DeprecatedTransaction || e
                    == GraphsError::InvalidInstructionAccount)
            },
        },
{
    if ms.is_member(creator).is_none() {
        return Err(GraphsError::KeyNotInMultisig);
    }
    if creator != tx.creator {
        return Err(GraphsError::InvalidInstructionAccount);
    }
    if tx.status != MsTransactionStatus::Draft {
        return Err(GraphsError::InvalidTransactionState);
    }
    if tx.transaction_index <= ms.ms_change_index {
        return Err(GraphsError::DeprecatedTransaction);
    }
    if tx.ms != ms.create_key {
        return Err(GraphsError::InvalidInstructionAccount);
    }
    tx.status = MsTransactionStatus::Active;
    Ok(())
}

/// Guard shared by the two voting operations: the acting principal must be a
/// current member, the proposal Active, not deprecated, and bound to the
/// checked group.
pub open spec fn vote_guard(ms: Ms, tx: MsTransaction, member: u64) -> bool {
    &&& ms.keys@.contains(member)
    &&& tx.status == MsTransactionStatus::Active
    &&& !tx.deprecated(ms)
    &&& tx.ms == ms.create_key
}

/// The fault a refused voting operation surfaces, in checking order.
pub open spec fn vote_fault(ms: Ms, tx: MsTransaction, member: u64, e: GraphsError) -> bool {
    &&& (e == GraphsError::KeyNotInMultisig <==> !ms.keys@.contains(member))
    &&& (e == GraphsError::InvalidTransactionState <==> (ms.keys@.contains(member) && tx.status
        != MsTransactionStatus::Active))
    &&& (e == GraphsError::DeprecatedTransaction <==> (ms.keys@.contains(member) && tx.status
        == MsTransactionStatus::Active && tx.deprecated(ms)))
    &&& (e == GraphsError::InvalidInstructionAccount <==> (ms.keys@.contains(member) && tx.status
        == MsTransactionStatus::Active && !tx.deprecated(ms) && tx.ms != ms.create_key))
    &&& (e == GraphsError::KeyNotInMultisig || e == GraphsError::InvalidTransactionState || e
        == GraphsError::DeprecatedTransaction || e == GraphsError::InvalidInstructionAccount)
}

/// Records `member`'s approval of an Active proposal. Any standing rejection
/// by the same member is withdrawn first; approving twice is a no-op. The
/// moment the approvals reach the threshold, the proposal becomes
/// ExecuteReady.
pub fn approve_transaction(ms: &Ms, tx: &mut MsTransaction, member: u64) -> (r: Result<
    (),
    GraphsError,
>)
    requires
        ms.wf(),
        old(tx).wf(),
    ensures
        final(tx).wf(),
        proposal_step(*ms, *old(tx), *final(tx)),
        match r {
            Ok(()) => {
                &&& vote_guard(*ms, *old(tx), member)
                &&& final(tx).approved@ == (if old(tx).approved@.contains(member) {
                    old(tx).approved@
                } else {
                    old(tx).approved@.push(member)
                })
                &&& final(tx).rejected@ == old(tx).rejected@.remove_value(member)
                &&& final(tx).status == (if final(tx).approved@.len() >= ms.threshold as int {
                    MsTransactionStatus::ExecuteReady
                } else {
                    MsTransactionStatus::Active
                })
                &&& final(tx).cancelled@ == old(tx).cancelled@
                &&& *final(tx) == (MsTransaction {
                    status: final(tx).status,
                    approved: final(tx).approved,
                    rejected: final(tx).rejected,
                    ..*old(tx)
                })
            },
            Err(e) => {
                &&& *final(tx) == *old(tx)
                &&& vote_fault(*ms, *old(tx), member, e)
            },
        },
{
    if ms.is_member(member).is_none() {
        return Err(GraphsError::KeyNotInMultisig);
    }
    if tx.status != MsTransactionStatus::Active {
        return Err(GraphsError::InvalidTransactionState);
    }
    if tx.transaction_index <= ms.ms_change_index {
        return Err(GraphsError::DeprecatedTransaction);
    }
    if tx.ms != ms.create_key {
        return Err(GraphsError::InvalidInstructionAccount);
    }
    remove_vote(&mut tx.rejected, member);
    add_vote(&mut tx.approved, member);
    if tx.approved.len() >= ms.threshold as usize {
        tx.status = MsTransactionStatus::ExecuteReady;
    }
    Ok(())
}

/// Records `member`'s rejection of an Active proposal, withdrawing any
/// standing approval first. Once the rejections exceed the cutoff
/// `|members| - threshold` - so approval can no longer mathematically reach
/// the threshold - the proposal is Rejected.
pub fn reject_transaction(ms: &Ms, tx: &mut MsTransaction, member: u64) -> (r: Result<
    (),
    GraphsError,
>)
    requires
        ms.wf(),
        old(tx).wf(),
    ensures
        final(tx).wf(),
        proposal_step(*ms, *old(tx), *final(tx)),
        match r {
            Ok(()) => {
                &&& vote_guard(*ms, *old(tx), member)
                &&& final(tx).rejected@ == (if old(tx).rejected@.contains(member) {
                    old(tx).rejected@
                } else {
                    old(tx).rejected@.push(member)
                })
                &&& final(tx).approved@ == old(tx).approved@.remove_value(member)
                &&& final(tx).status == (if final(tx).rejected@.len() > ms.keys@.len()
                    - ms.threshold as int {
                    MsTransactionStatus::Rejected
                } else {
                    MsTransactionStatus::Active
                })
                &&& final(tx).cancelled@ == old(tx).cancelled@
                &&& *final(tx) == (MsTransaction {
                    status: final(tx).status,
                    approved: final(tx).approved,
                    rejected: final(tx).rejected,
                    ..*old(tx)
                })
            },
            Err(e) => {
                &&& *final(tx) == *old(tx)
                &&& vote_fault(*ms, *old(tx), member, e)
            },
        },
{
    if ms.is_member(member).is_none() {
        return Err(GraphsError::KeyNotInMultisig);
    }
    if tx.status != MsTransactionStatus::Active {
        return Err(GraphsError::InvalidTransactionState);
    }
    if tx.transaction_index <= ms.ms_change_index {
        return Err(GraphsError::DeprecatedTransaction);
    }
    if tx.ms != ms.create_key {
        return Err(GraphsError::InvalidInstructionAccount);
    }
    remove_vote(&mut tx.approved, member);
    add_vote(&mut tx.rejected, member);
    let cutoff = ms.keys.len() - ms.threshold as usize;
    if tx.rejected.len() > cutoff {
        tx.status = MsTransactionStatus::Rejected;
    }
    Ok(())
}

/// Records `member`'s cancel vote on an ExecuteReady proposal (idempotent);
/// once the cancel votes reach the threshold, the proposal is Cancelled.
/// Cancellation does not touch the approval or rejection records.
pub fn cancel_transaction(ms: &Ms, tx: &mut MsTransaction, member: u64) -> (r: Result<
    (),
    GraphsError,
>)
    requires
        ms.wf(),
        old(tx).wf(),
    ensures
        final(tx).wf(),
        proposal_step(*ms, *old(tx), *final(tx)),
        match r {
            Ok(()) => {
                &&& ms.keys@.contains(member)
                &&& old(tx).status == MsTransactionStatus::ExecuteReady
                &&& old(tx).ms == ms.create_key
                &&& final(tx).cancelled@ == (if old(tx).cancelled@.contains(member) {
                    old(tx).cancelled@
                } else {
                    old(tx).cancelled@.push(member)
                })
                &&& final(tx).status == (if final(tx).cancelled@.len() >= ms.threshold as int {
                    MsTransactionStatus::Cancelled
                } else {
                    MsTransactionStatus::ExecuteReady
                })
                &&& *final(tx) == (MsTransaction {
                    status: final(tx).status,
                    cancelled: final(tx).cancelled,
                    ..*old(tx)
                })
            },
            Err(e) => {
                &&& *final(tx) == *old(tx)
                &&& (e == GraphsError::KeyNotInMultisig <==> !ms.keys@.contains(member))
                &&& (e == GraphsError::InvalidTransactionState <==> (ms.keys@.contains(member)
                    && old(tx).status != MsTransactionStatus::ExecuteReady))
                &&& (e == GraphsError::InvalidInstructionAccount <==> (ms.keys@.contains(member)
                    && old(tx).status == MsTransactionStatus::ExecuteReady && old(tx).ms
                    != ms.create_key))
                &&& (e == GraphsError::KeyNotInMultisig || e
                    == GraphsError::InvalidTransactionState || e
                    == GraphsError::InvalidInstructionAccount)
            },
        },
{
    if ms.is_member(member).is_none() {
        return Err(GraphsError::KeyNotInMultisig);
    }
    if tx.status != MsTransactionStatus::ExecuteReady {
        return Err(GraphsError::InvalidTransactionState);
    }
    if tx.ms != ms.create_key {
        return Err(GraphsError::InvalidInstructionAccount);
    }
    add_vote(&mut tx.cancelled, member);
    if tx.cancelled.len() >= ms.threshold as usize {
        tx.status = MsTransactionStatus::Cancelled;
    }
    Ok(())
}

} // verus!
