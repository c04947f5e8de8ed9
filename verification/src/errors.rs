//! Fault taxonomy of the engine.
//!
//! Validation faults are caller-fixable and rejected before any mutation;
//! authorization faults reject with no state change; state-machine faults
//! reject one specific transition; integrity faults signal tampering or
//! stale references and are fatal to the current call.

use vstd::prelude::*;

verus! {

/// Every fault the engine can surface. No fault is retried internally.
#[derive(Clone, Copy, Debug, PartialEq, Eq, Structural)]
pub enum GraphsError {
    /// Creating a group with an empty (post-dedup) member list.
    EmptyMembers,
    /// The member list would exceed the 16-bit ceiling.
    MaxMembersReached,
    /// A threshold of zero, or one exceeding the member count at creation.
    InvalidThreshold,
    /// An operation's authority type is neither the default nor the custom kind.
    InvalidAuthorityType,
    /// Exactly one of authority index / authority bump was supplied.
    InvalidAuthorityIndex,
    /// The acting principal is not a current member of the group.
    KeyNotInMultisig,
    /// The acting principal is not the group's external authority.
    InvalidExternalAuthority,
    /// The proposal is not in the state this transition requires.
    InvalidTransactionState,
    /// The proposal predates the last membership change and is disqualified.
    DeprecatedTransaction,
    /// Sequential execution has begun, so atomic execution is barred.
    PartialExecution,
    /// Removing the sole remaining member of a group.
    CannotRemoveSoloMember,
    /// A durable record or account reference failed re-verification.
    InvalidInstructionAccount,
}

} // verus!
