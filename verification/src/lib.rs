//! A threshold-authorization engine: a group of registered members jointly
//! controls delegated signing authorities, and any action taken as such an
//! authority must be proposed, voted on by members, and executed only once
//! a quorum is reached.
//!
//! The crate verifies the transaction lifecycle state machine and the
//! delegated-execution protocol; durable storage, funding transfers,
//! signature verification and the delegated invocations themselves are the
//! host's business. Principals and record addresses are opaque to the
//! engine, which only compares and orders them, and are carried here as
//! plain machine words; the byte-level derivation of delegated authorities
//! lives in `authority`.

pub mod authority;
pub mod errors;
pub mod execute;
pub mod instruction;
pub mod lifecycle;
pub mod proposal;
pub mod registry;
