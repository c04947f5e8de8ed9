//! Operation records: the ordered list of external operations attached to a
//! proposal, each with its own delegated-authority binding. Records are only
//! mutable while the owning proposal is in Draft.

use vstd::prelude::*;

use crate::errors::GraphsError;
use crate::proposal::{proposal_step, MsTransaction, MsTransactionStatus};
use crate::registry::Ms;

verus! {

/// Which delegated authority must sign when an operation is invoked.
#[derive(Clone, Copy, Debug, PartialEq, Eq, Structural)]
pub enum MsAuthorityType {
    /// The group-scoped authority the owning proposal acts as.
    Default,
    /// A proposal-scoped one-off authority, co-signing with the default one.
    Custom,
}

/// One account reference of an operation: who, and in what role.
#[derive(Clone, Copy, Debug, PartialEq, Eq, Structural)]
pub struct MsAccountMeta {
    /// The referenced account.
    pub pubkey: u64,
    /// Whether the account must sign the invocation.
    pub is_signer: bool,
    /// Whether the invocation may write to the account.
    pub is_writable: bool,
}

/// An operation as handed in by the creator, before it is bound to a slot.
#[derive(Clone, Debug)]
pub struct IncomingInstruction {
    /// The external program or component the operation targets.
    pub program_id: u64,
    /// Ordered account references the target will receive.
    pub keys: Vec<MsAccountMeta>,
    /// Opaque payload handed to the target.
    pub data: Vec<u8>,
}

/// One attached operation record, ordered 1..=instruction_index within its
/// owning proposal.
#[derive(Clone, Debug)]
pub struct MsInstruction {
    /// The external program or component the operation targets.
    pub program_id: u64,
    /// Ordered account references, re-verified at invocation time.
    pub keys: Vec<MsAccountMeta>,
    /// Opaque payload.
    pub data: Vec<u8>,
    /// This record's slot within the owning proposal, counted from one.
    pub instruction_index: u8,
    /// Index of the delegated authority that must sign.
    pub authority_index: u32,
    /// Derivation bump of that authority.
    pub authority_bump: u8,
    /// Whether the signing authority is group-scoped or proposal-scoped.
    pub authority_type: MsAuthorityType,
    /// Set once this record has been carried out sequentially.
    pub executed: bool,
}

/// The record `add_instruction` attaches for the given inputs: when neither
/// an authority index nor a bump is supplied, both are inherited from the
/// proposal's default authority and the type is forced to the group-scoped
/// kind.
pub open spec fn attached_record(
    tx: MsTransaction,
    incoming: IncomingInstruction,
    authority_index: Option<u32>,
    authority_bump: Option<u8>,
    authority_type: MsAuthorityType,
) -> MsInstruction {
    let inherit = authority_index is None && authority_bump is None;
    MsInstruction {
        program_id: incoming.program_id,
        keys: incoming.keys,
        data: incoming.data,
        instruction_index: (tx.instruction_index + 1) as u8,
        authority_index: if inherit {
            tx.authority_index
        } else {
            authority_index->Some_0
        },
        authority_bump: if inherit {
            tx.authority_bump
        } else {
            authority_bump->Some_0
        },
        authority_type: if inherit {
            MsAuthorityType::Default
        } else {
            authority_type
        },
        executed: false,
    }
}

/// Attaches an operation to a Draft proposal, binding its delegated
/// authority. Supplying exactly one of the authority index and bump is
/// rejected; supplying neither inherits the proposal's default authority.
/// Both accepted authority kinds are representable, so no input reaches the
/// `InvalidAuthorityType` fault.
pub fn add_instruction(
    ms: &Ms,
    tx: &mut MsTransaction,
    creator: u64,
    incoming: IncomingInstruction,
    authority_index: Option<u32>,
    authority_bump: Option<u8>,
    authority_type: MsAuthorityType,
) -> (r: Result<MsInstruction, GraphsError>)
    requires
        ms.wf(),
        old(tx).wf(),
        old(tx).instruction_index < u8::MAX,
    ensures
        final(tx).wf(),
        proposal_step(*ms, *old(tx), *final(tx)),
        match r {
            Ok(rec) => {
                &&& ms.keys@.contains(creator)
                &&& creator == old(tx).creator
                &&& old(tx).status == MsTransactionStatus::Draft
                &&& old(tx).ms == ms.create_key
                &&& (authority_index is Some <==> authority_bump is Some)
                &&& *final(tx) == (MsTransaction {
                    instruction_index: (old(tx).instruction_index + 1) as u8,
                    ..*old(tx)
                })
                &&& rec == attached_record(
                    *old(tx),
                    incoming,
                    authority_index,
                    authority_bump,
                    authority_type,
                )
            },
            Err(e) => {
                &&& *final(tx) == *old(tx)
                &&& (e == GraphsError::KeyNotInMultisig <==> !ms.keys@.contains(creator))
                &&& (e == GraphsError::InvalidTransactionState <==> (ms.keys@.contains(creator)
                    && creator == old(tx).creator && old(tx).status
                    != MsTransactionStatus::Draft))
                &&& (e == GraphsError::InvalidInstructionAccount <==> (ms.keys@.contains(creator)
                    && (creator != old(tx).creator || (old(tx).status
                    == MsTransactionStatus::Draft && old(tx).ms != ms.create_key))))
                &&& (e == GraphsError::InvalidAuthorityIndex <==> (ms.keys@.contains(creator)
                    && creator == old(tx).creator && old(tx).status == MsTransactionStatus::Draft
                    && old(tx).ms == ms.create_key && ((authority_index is None && authority_bump
                    is Some) || (authority_index is Some && authority_bump is None))))
                &&& (e == GraphsError::KeyNotInMultisig || e
                    == GraphsError::InvalidTransactionState || e
                    == GraphsError::InvalidInstructionAccount || e
                    == GraphsError::InvalidAuthorityIndex)
            },
        },
{
    if ms.is_member(creator).is_none() {
        return Err(GraphsError::KeyNotInMultisig);
    }
    if creator != tx.creator {
        return Err(GraphsError::InvalidInstructionAccount);
    }
    if tx.status != MsTransactionStatus::Draft {
        return Err(GraphsError::InvalidTransactionState);
    }
    if tx.ms != ms.create_key {
        return Err(GraphsError::InvalidInstructionAccount);
    }
    let inherit = authority_index.is_none() && authority_bump.is_none();
    if !inherit && (authority_index.is_none() || authority_bump.is_none()) {
        return Err(GraphsError::InvalidAuthorityIndex);
    }
    let (ix_authority_index, ix_authority_bump, ix_authority_type) = if inherit {
        (tx.authority_index, tx.authority_bump, MsAuthorityType::Default)
    } else {
        (authority_index.unwrap(), authority_bump.unwrap(), authority_type)
    };
    tx.instruction_index = tx.instruction_index + 1;
    Ok(
        MsInstruction {
            program_id: incoming.program_id,
            keys: incoming.keys,
            data: incoming.data,
            instruction_index: tx.instruction_index,
            authority_index: ix_authority_index,
            authority_bump: ix_authority_bump,
            authority_type: ix_authority_type,
            executed: false,
        },
    )
}

} // verus!
