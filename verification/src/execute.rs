//! The execution engine: validates each operation record against what was
//! recorded at creation time, decides between the atomic batch and the
//! strictly sequential mode, and advances the progress marker only when a
//! step fully succeeded. The delegated invocations themselves are performed
//! by the host; this module computes what must be invoked and with which
//! signing material, and finalizes the proposal state afterwards.

use vstd::prelude::*;

use crate::errors::GraphsError;
use crate::instruction::{MsAccountMeta, MsAuthorityType, MsInstruction};
use crate::proposal::{proposal_step, MsTransaction, MsTransactionStatus};
use crate::registry::Ms;

verus! {

/// The signing material a delegated invocation is performed with: either the
/// group-scoped authority proof alone, or the proposal-scoped proof jointly
/// with the group-scoped one.
#[derive(Clone, Copy, Debug, PartialEq, Eq, Structural)]
pub enum SigningMaterial {
    /// Sign as the group's delegated authority.
    Group {
        /// Authority index within the group.
        authority_index: u32,
        /// Derivation bump of that authority.
        authority_bump: u8,
    },
    /// Sign as the proposal-scoped authority and the group's default
    /// authority jointly.
    Joint {
        /// Proposal-scoped authority index.
        ix_authority_index: u32,
        /// Proposal-scoped derivation bump.
        ix_authority_bump: u8,
        /// The owning proposal's default authority index.
        tx_authority_index: u32,
        /// The owning proposal's default authority bump.
        tx_authority_bump: u8,
    },
}

/// One delegated invocation the host must perform: target, account
/// references, payload, and the signing material it must be signed with.
#[derive(Clone, Debug)]
pub struct InvocationPlan {
    /// The external program or component to invoke.
    pub program_id: u64,
    /// Ordered account references handed to the target.
    pub accounts: Vec<MsAccountMeta>,
    /// Opaque payload.
    pub data: Vec<u8>,
    /// The authority material the invocation is signed with.
    pub signing: SigningMaterial,
}

/// What one record is executed with: its own binding when group-scoped, or
/// the joint material when proposal-scoped.
pub open spec fn signing_for(tx: MsTransaction, rec: MsInstruction) -> SigningMaterial {
    match rec.authority_type {
        MsAuthorityType::Default => SigningMaterial::Group {
            authority_index: rec.authority_index,
            authority_bump: rec.authority_bump,
        },
        MsAuthorityType::Custom => SigningMaterial::Joint {
            ix_authority_index: rec.authority_index,
            ix_authority_bump: rec.authority_bump,
            tx_authority_index: tx.authority_index,
            tx_authority_bump: tx.authority_bump,
        },
    }
}

/// Whether a plan replays exactly what the record holds, signed with the
/// material the record's authority binding demands.
pub open spec fn plan_matches(tx: MsTransaction, rec: MsInstruction, plan: InvocationPlan) -> bool {
    &&& plan.program_id == rec.program_id
    &&& plan.accounts@ == rec.keys@
    &&& plan.data@ == rec.data@
    &&& plan.signing == signing_for(tx, rec)
}

/// The accounts provided by the caller for one attached record, re-verified
/// against the record before anything is invoked.
#[derive(Clone, Debug)]
pub struct InstructionBlock {
    /// The stored operation record, re-read from durable storage.
    pub record: MsInstruction,
    /// Owner of the record's durable storage; must be this engine.
    pub record_owner: u64,
    /// Key of the provided target-program account.
    pub program_account: u64,
    /// Keys of the provided accounts, in the record's order.
    pub account_keys: Vec<u64>,
}

/// A provided block matches slot `i` when the record is owned by this
/// engine, sits in slot `i`, targets the provided program account, and every
/// provided account key equals the recorded one, in order.
pub open spec fn block_matches(program_id: u64, b: InstructionBlock, i: int) -> bool {
    &&& b.record_owner == program_id
    &&& b.record.instruction_index == i
    &&& b.program_account == b.record.program_id
    &&& b.account_keys@ == b.record.keys@.map_values(|k: MsAccountMeta| k.pubkey)
}

/// Whether `executor` may trigger execution for this group.
pub open spec fn may_execute(ms: Ms, executor: u64) -> bool {
    ms.keys@.contains(executor) || ms.allow_external_execute
}

/// Copies a recorded account-reference list.
fn copy_metas(v: &Vec<MsAccountMeta>) -> (r: Vec<MsAccountMeta>)
    ensures
        r@ == v@,
{
    let mut r: Vec<MsAccountMeta> = Vec::new();
    let mut j: usize = 0;
    while j < v.len()
        invariant
            j <= v@.len(),
            r@ == v@.subrange(0, j as int),
        decreases v@.len() - j,
    {
        r.push(v[j]);
        proof {
            assert(r@ =~= v@.subrange(0, j + 1));
        }
        j += 1;
    }
    proof {
        assert(r@ =~= v@);
    }
    r
}

/// Copies a recorded payload.
fn copy_bytes(v: &Vec<u8>) -> (r: Vec<u8>)
    ensures
        r@ == v@,
{
    let mut r: Vec<u8> = Vec::new();
    let mut j: usize = 0;
    while j < v.len()
        invariant
            j <= v@.len(),
            r@ == v@.subrange(0, j as int),
        decreases v@.len() - j,
    {
        r.push(v[j]);
        proof {
            assert(r@ =~= v@.subrange(0, j + 1));
        }
        j += 1;
    }
    proof {
        assert(r@ =~= v@);
    }
    r
}

/// Resolves the caller's account-selection list for an atomic execution:
/// each byte picks one account out of those provided, in the order the
/// records will be replayed. A selection past the end of what was provided
/// is refused, and nothing is selected.
pub fn resolve_account_list(account_list: &Vec<u8>, available: usize) -> (r: Option<Vec<usize>>)
    ensures
        match r {
            Some(picked) => {
                &&& picked@.len() == account_list@.len()
                &&& (forall|i: int|
                    0 <= i < picked@.len() ==> #[trigger] picked@[i] == account_list@[i] as usize
                        && picked@[i] < available)
            },
            None => exists|i: int|
                0 <= i < account_list@.len() && #[trigger] account_list@[i] as int
                    >= available,
        },
{
    let mut picked: Vec<usize> = Vec::new();
    let mut i: usize = 0;
    while i < account_list.len()
        invariant
            i <= account_list@.len(),
            picked@.len() == i,
            forall|w: int|
                0 <= w < i ==> #[trigger] picked@[w] == account_list@[w] as usize && picked@[w]
                    < available,
        decreases account_list@.len() - i,
    {
        let sel = account_list[i] as usize;
        if sel >= available {
            return None;
        }
        picked.push(sel);
        i += 1;
    }
    Some(picked)
}

/// Checks one provided block against its record.
fn check_block(program_id: u64, b: &InstructionBlock, i: u8) -> (r: bool)
    ensures
        r == block_matches(program_id, *b, i as int),
{
    if b.record_owner != program_id {
        return false;
    }
    if b.record.instruction_index != i {
        return false;
    }
    if b.program_account != b.record.program_id {
        return false;
    }
    if b.account_keys.len() != b.record.keys.len() {
        proof {
            assert(b.account_keys@.len() != b.record.keys@.map_values(
                |k: MsAccountMeta| k.pubkey,
            ).len());
        }
        return false;
    }
    let mut j: usize = 0;
    while j < b.account_keys.len()
        invariant
            j <= b.account_keys@.len(),
            b.account_keys@.len() == b.record.keys@.len(),
            forall|w: int| 0 <= w < j ==> b.account_keys@[w] == b.record.keys@[w].pubkey,
        decreases b.account_keys@.len() - j,
    {
        if b.account_keys[j] != b.record.keys[j].pubkey {
            proof {
                assert(b.account_keys@[j as int] != b.record.keys@.map_values(
                    |k: MsAccountMeta| k.pubkey,
                )[j as int]);
            }
            return false;
        }
        j += 1;
    }
    proof {
        assert(b.account_keys@ =~= b.record.keys@.map_values(|k: MsAccountMeta| k.pubkey));
    }
    true
}

/// Validates an atomic batch execution of an ExecuteReady proposal and
/// returns the invocations to perform, in record order. A proposal with no
/// attached operations is marked Executed immediately. Once any sequential
/// step has executed, the atomic mode is barred for good. A provided account
/// list that is too short, too long, or mismatched anywhere is an integrity
/// fault, and nothing is invoked. The proposal is marked Executed only by
/// `finalize_execute_transaction`, once the host reports that every returned
/// invocation succeeded.
#[verifier::loop_isolation(false)]
pub fn execute_transaction(
    ms: &Ms,
    tx: &mut MsTransaction,
    executor: u64,
    program_id: u64,
    blocks: &Vec<InstructionBlock>,
) -> (r: Result<Vec<InvocationPlan>, GraphsError>)
    requires
        ms.wf(),
        old(tx).wf(),
    ensures
        final(tx).wf(),
        proposal_step(*ms, *old(tx), *final(tx)),
        match r {
            Ok(plans) => {
                &&& may_execute(*ms, executor)
                &&& old(tx).status == MsTransactionStatus::ExecuteReady
                &&& old(tx).ms == ms.create_key
                &&& old(tx).executed_index == 0
                &&& (old(tx).instruction_index == 0 ==> *final(tx) == (MsTransaction {
                    status: MsTransactionStatus::Executed,
                    ..*old(tx)
                }) && plans@ == Seq::<InvocationPlan>::empty())
                &&& (old(tx).instruction_index != 0 ==> {
                    &&& *final(tx) == *old(tx)
                    &&& blocks@.len() == old(tx).instruction_index as int
                    &&& (forall|i: int|
                        0 <= i < blocks@.len() ==> block_matches(
                            program_id,
                            #[trigger] blocks@[i],
                            i + 1,
                        ))
                    &&& plans@.len() == blocks@.len()
                    &&& (forall|i: int|
                        0 <= i < blocks@.len() ==> plan_matches(
                            *old(tx),
                            blocks@[i].record,
                            #[trigger] plans@[i],
                        ))
                })
            },
            Err(e) => {
                &&& *final(tx) == *old(tx)
                &&& (e == GraphsError::KeyNotInMultisig <==> !may_execute(*ms, executor))
                &&& (e == GraphsError::InvalidTransactionState <==> (may_execute(*ms, executor)
                    && old(tx).status != MsTransactionStatus::ExecuteReady))
                &&& (e == GraphsError::PartialExecution <==> (may_execute(*ms, executor) && old(
                    tx,
                ).status == MsTransactionStatus::ExecuteReady && old(tx).ms == ms.create_key
                    && old(tx).executed_index >= 1))
                &&& (e == GraphsError::InvalidInstructionAccount <==> (may_execute(*ms, executor)
                    && old(tx).status == MsTransactionStatus::ExecuteReady && (old(tx).ms
                    != ms.create_key || (old(tx).executed_index == 0 && old(tx).instruction_index
                    > 0 && !(blocks@.len() == old(tx).instruction_index as int && forall|i: int|
                    0 <= i < blocks@.len() ==> block_matches(
                        program_id,
                        #[trigger] blocks@[i],
                        i + 1,
                    ))))))
                &&& (e == GraphsError::KeyNotInMultisig || e
                    == GraphsError::InvalidTransactionState || e == GraphsError::PartialExecution
                    || e == GraphsError::InvalidInstructionAccount)
            },
        },
{
    let executor_is_member = ms.is_member(executor).is_some();
    if !executor_is_member && !ms.allow_external_execute {
        return Err(GraphsError::KeyNotInMultisig);
    }
    if tx.status != MsTransactionStatus::ExecuteReady {
        return Err(GraphsError::InvalidTransactionState);
    }
    if tx.ms != ms.create_key {
        return Err(GraphsError::InvalidInstructionAccount);
    }
    if tx.executed_index >= 1 {
        return Err(GraphsError::PartialExecution);
    }
    if tx.instruction_index == 0 {
        tx.status = MsTransactionStatus::Executed;
        return Ok(Vec::new());
    }
    if blocks.len() != tx.instruction_index as usize {
        return Err(GraphsError::InvalidInstructionAccount);
    }
    let mut plans: Vec<InvocationPlan> = Vec::new();
    let mut i: usize = 0;
    while i < blocks.len()
        invariant
            i <= blocks@.len(),
            blocks@.len() == tx.instruction_index as int,
            blocks@.len() <= 255,
            plans@.len() == i,
            forall|w: int|
                0 <= w < i ==> block_matches(program_id, #[trigger] blocks@[w], w + 1),
            forall|w: int|
                0 <= w < i ==> plan_matches(*tx, blocks@[w].record, #[trigger] plans@[w]),
        decreases blocks@.len() - i,
    {
        let b = &blocks[i];
        if !check_block(program_id, b, (i + 1) as u8) {
            return Err(GraphsError::InvalidInstructionAccount);
        }
        let signing = match b.record.authority_type {
            MsAuthorityType::Default => SigningMaterial::Group {
                authority_index: b.record.authority_index,
                authority_bump: b.record.authority_bump,
            },
            MsAuthorityType::Custom => SigningMaterial::Joint {
                ix_authority_index: b.record.authority_index,
                ix_authority_bump: b.record.authority_bump,
                tx_authority_index: tx.authority_index,
                tx_authority_bump: tx.authority_bump,
            },
        };
        plans.push(
            InvocationPlan {
                program_id: b.record.program_id,
                accounts: copy_metas(&b.record.keys),
                data: copy_bytes(&b.record.data),
                signing,
            },
        );
        i += 1;
    }
    Ok(plans)
}

/// Marks an ExecuteReady proposal Executed, after the host has performed
/// every invocation of a validated atomic batch successfully. A batch that
/// failed anywhere must not be finalized: the proposal then stays
/// ExecuteReady, untouched.
pub fn finalize_execute_transaction(ms: &Ms, tx: &mut MsTransaction)
    requires
        ms.wf(),
        old(tx).wf(),
        old(tx).status == MsTransactionStatus::ExecuteReady,
    ensures
        final(tx).wf(),
        proposal_step(*ms, *old(tx), *final(tx)),
        *final(tx) == (MsTransaction { status: MsTransactionStatus::Executed, ..*old(tx) }),
{
    tx.status = MsTransactionStatus::Executed;
}

/// Validates the next sequential step of an ExecuteReady proposal: the
/// provided record must be exactly the one after the last executed step, not
/// yet executed, and the provided program and account keys must match what
/// was recorded. Returns the one invocation to perform; the progress marker
/// moves only in `finalize_execute_instruction`, once the host reports
/// success.
#[verifier::loop_isolation(false)]
pub fn execute_instruction(
    ms: &Ms,
    tx: &MsTransaction,
    record: &MsInstruction,
    executor: u64,
    program_account: u64,
    account_keys: &Vec<u64>,
) -> (r: Result<InvocationPlan, GraphsError>)
    requires
        ms.wf(),
        tx.wf(),
        tx.executed_index < u8::MAX,
    ensures
        match r {
            Ok(plan) => {
                &&& may_execute(*ms, executor)
                &&& tx.status == MsTransactionStatus::ExecuteReady
                &&& tx.ms == ms.create_key
                &&& !record.executed
                &&& record.instruction_index == tx.executed_index + 1
                &&& program_account == record.program_id
                &&& account_keys@ == record.keys@.map_values(|k: MsAccountMeta| k.pubkey)
                &&& plan_matches(*tx, *record, plan)
            },
            Err(e) => {
                &&& (e == GraphsError::KeyNotInMultisig <==> !may_execute(*ms, executor))
                &&& (e == GraphsError::InvalidTransactionState <==> (may_execute(*ms, executor)
                    && tx.status != MsTransactionStatus::ExecuteReady))
                &&& (e == GraphsError::InvalidInstructionAccount <==> (may_execute(*ms, executor)
                    && tx.status == MsTransactionStatus::ExecuteReady && (tx.ms != ms.create_key
                    || record.executed || record.instruction_index != tx.executed_index + 1
                    || program_account != record.program_id || account_keys@
                    != record.keys@.map_values(|k: MsAccountMeta| k.pubkey))))
                &&& (e == GraphsError::KeyNotInMultisig || e
                    == GraphsError::InvalidTransactionState || e
                    == GraphsError::InvalidInstructionAccount)
            },
        },
{
    let executor_is_member = ms.is_member(executor).is_some();
    if !executor_is_member && !ms.allow_external_execute {
        return Err(GraphsError::KeyNotInMultisig);
    }
    if tx.status != MsTransactionStatus::ExecuteReady {
        return Err(GraphsError::InvalidTransactionState);
    }
    if tx.ms != ms.create_key {
        return Err(GraphsError::InvalidInstructionAccount);
    }
    if record.executed {
        return Err(GraphsError::InvalidInstructionAccount);
    }
    if record.instruction_index != tx.executed_index + 1 {
        return Err(GraphsError::InvalidInstructionAccount);
    }
    if program_account != record.program_id {
        return Err(GraphsError::InvalidInstructionAccount);
    }
    if account_keys.len() != record.keys.len() {
        proof {
            assert(account_keys@.len() != record.keys@.map_values(
                |k: MsAccountMeta| k.pubkey,
            ).len());
        }
        return Err(GraphsError::InvalidInstructionAccount);
    }
    let mut j: usize = 0;
    while j < account_keys.len()
        invariant
            j <= account_keys@.len(),
            account_keys@.len() == record.keys@.len(),
            forall|w: int| 0 <= w < j ==> account_keys@[w] == record.keys@[w].pubkey,
        decreases account_keys@.len() - j,
    {
        if account_keys[j] != record.keys[j].pubkey {
            proof {
                assert(account_keys@[j as int] != record.keys@.map_values(
                    |k: MsAccountMeta| k.pubkey,
                )[j as int]);
            }
            return Err(GraphsError::InvalidInstructionAccount);
        }
        j += 1;
    }
    proof {
        assert(account_keys@ =~= record.keys@.map_values(|k: MsAccountMeta| k.pubkey));
    }
    let signing = match record.authority_type {
        MsAuthorityType::Default => SigningMaterial::Group {
            authority_index: record.authority_index,
            authority_bump: record.authority_bump,
        },
        MsAuthorityType::Custom => SigningMaterial::Joint {
            ix_authority_index: record.authority_index,
            ix_authority_bump: record.authority_bump,
            tx_authority_index: tx.authority_index,
            tx_authority_bump: tx.authority_bump,
        },
    };
    Ok(
        InvocationPlan {
            program_id: record.program_id,
            accounts: copy_metas(&record.keys),
            data: copy_bytes(&record.data),
            signing,
        },
    )
}

/// Advances the sequential progress after the host performed one validated
/// step successfully: the record is marked executed, the progress marker
/// moves to its slot, and when that was the last attached operation the
/// proposal is Executed. A step that failed must not be finalized: the
/// progress marker then survives untouched.
pub fn finalize_execute_instruction(ms: &Ms, tx: &mut MsTransaction, record: &mut MsInstruction)
    requires
        ms.wf(),
        old(tx).wf(),
        old(tx).status == MsTransactionStatus::ExecuteReady,
        !old(record).executed,
        old(record).instruction_index == old(tx).executed_index + 1,
        old(tx).executed_index < old(tx).instruction_index,
    ensures
        final(tx).wf(),
        proposal_step(*ms, *old(tx), *final(tx)),
        *final(record) == (MsInstruction { executed: true, ..*old(record) }),
        *final(tx) == (MsTransaction {
            executed_index: old(record).instruction_index,
            status: if old(record).instruction_index == old(tx).instruction_index {
                MsTransactionStatus::Executed
            } else {
                MsTransactionStatus::ExecuteReady
            },
            ..*old(tx)
        }),
{
    record.executed = true;
    tx.executed_index = record.instruction_index;
    if record.instruction_index == tx.instruction_index {
        tx.status = MsTransactionStatus::Executed;
    }
}

} // verus!
