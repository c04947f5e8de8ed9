//! The authority directory: deterministic derivation of delegated signing
//! identities. A group-scoped authority is derived from the group's record
//! address and an authority index (index zero is reserved for internal use);
//! a proposal-scoped authority is derived from one proposal's record address
//! for one-off delegation. Operation records are likewise bound to a derived
//! address per proposal and slot, so a substituted record can be detected.
//! All derivations are reproducible from public inputs alone.

use vstd::bytes::{spec_u32_to_le_bytes, u32_to_le_bytes};
use vstd::prelude::*;

verus! {

/// The address and bump that program derivation yields for four seeds under
/// a deriving program, or nothing in the statistically improbable event that
/// no bump yields a valid derivation.
pub uninterp spec fn pda_of(
    s0: Seq<u8>,
    s1: Seq<u8>,
    s2: Seq<u8>,
    s3: Seq<u8>,
    program: Seq<u8>,
) -> Option<(Seq<u8>, u8)>;

/// Relies on Pubkey::try_find_program_address of the host SDK: the derived
/// address and bump depend on the seed slices and the deriving program's id
/// alone, and the statistically improbable failure to find a bump yields
/// nothing rather than a panic.
#[verifier::external_body]
fn try_find_pda(s0: &Vec<u8>, s1: &Vec<u8>, s2: &Vec<u8>, s3: &Vec<u8>, program: &[u8; 32]) -> (r:
    Option<([u8; 32], u8)>)
    ensures
        match r {
            Some(p) => pda_of(s0@, s1@, s2@, s3@, program@) == Some((p.0@, p.1)),
            None => pda_of(s0@, s1@, s2@, s3@, program@) is None,
        },
{
    let program_id = anchor_lang::solana_program::pubkey::Pubkey::new_from_array(*program);
    let seeds: [&[u8]; 4] = [s0.as_slice(), s1.as_slice(), s2.as_slice(), s3.as_slice()];
    anchor_lang::solana_program::pubkey::Pubkey::try_find_program_address(&seeds, &program_id)
        .map(|p| (p.0.to_bytes(), p.1))
}

/// The domain prefix every derivation of this engine starts with: the
/// ASCII bytes of "squad".
pub open spec fn seed_prefix() -> Seq<u8> {
    seq![115u8, 113u8, 117u8, 97u8, 100u8]
}

/// The tag closing a group-scoped authority derivation: the ASCII bytes
/// of "authority".
pub open spec fn authority_tag() -> Seq<u8> {
    seq![97u8, 117u8, 116u8, 104u8, 111u8, 114u8, 105u8, 116u8, 121u8]
}

/// The tag closing a proposal-scoped authority derivation: the ASCII
/// bytes of "ix_authority".
pub open spec fn custom_authority_tag() -> Seq<u8> {
    seq![105u8, 120u8, 95u8, 97u8, 117u8, 116u8, 104u8, 111u8, 114u8, 105u8, 116u8, 121u8]
}

/// The tag closing an operation record's address derivation: the ASCII
/// bytes of "instruction".
pub open spec fn instruction_tag() -> Seq<u8> {
    seq![105u8, 110u8, 115u8, 116u8, 114u8, 117u8, 99u8, 116u8, 105u8, 111u8, 110u8]
}

fn seed_prefix_bytes() -> (v: Vec<u8>)
    ensures
        v@ == seed_prefix(),
{
    let mut v: Vec<u8> = Vec::new();
    v.push(115u8);
    v.push(113u8);
    v.push(117u8);
    v.push(97u8);
    v.push(100u8);
    proof {
        assert(v@ =~= seed_prefix());
    }
    v
}

fn authority_tag_bytes() -> (v: Vec<u8>)
    ensures
        v@ == authority_tag(),
{
    let mut v: Vec<u8> = Vec::new();
    v.push(97u8);
    v.push(117u8);
    v.push(116u8);
    v.push(104u8);
    v.push(111u8);
    v.push(114u8);
    v.push(105u8);
    v.push(116u8);
    v.push(121u8);
    proof {
        assert(v@ =~= authority_tag());
    }
    v
}

fn custom_authority_tag_bytes() -> (v: Vec<u8>)
    ensures
        v@ == custom_authority_tag(),
{
    let mut v: Vec<u8> = Vec::new();
    v.push(105u8);
    v.push(120u8);
    v.push(95u8);
    v.push(97u8);
    v.push(117u8);
    v.push(116u8);
    v.push(104u8);
    v.push(111u8);
    v.push(114u8);
    v.push(105u8);
    v.push(116u8);
    v.push(121u8);
    proof {
        assert(v@ =~= custom_authority_tag());
    }
    v
}

fn instruction_tag_bytes() -> (v: Vec<u8>)
    ensures
        v@ == instruction_tag(),
{
    let mut v: Vec<u8> = Vec::new();
    v.push(105u8);
    v.push(110u8);
    v.push(115u8);
    v.push(116u8);
    v.push(114u8);
    v.push(117u8);
    v.push(99u8);
    v.push(116u8);
    v.push(105u8);
    v.push(111u8);
    v.push(110u8);
    proof {
        assert(v@ =~= instruction_tag());
    }
    v
}

/// Copies a 32-byte record address into seed form.
fn key_bytes(key: &[u8; 32]) -> (v: Vec<u8>)
    ensures
        v@ == key@,
{
    let mut v: Vec<u8> = Vec::new();
    let mut i: usize = 0;
    while i < 32
        invariant
            i <= 32,
            key@.len() == 32,
            v@ == key@.subrange(0, i as int),
        decreases 32 - i,
    {
        v.push(key[i]);
        proof {
            assert(v@ =~= key@.subrange(0, i + 1));
        }
        i += 1;
    }
    proof {
        assert(v@ =~= key@);
    }
    v
}

/// What the group-scoped derivation for an authority index yields.
pub open spec fn default_authority_of(
    group: Seq<u8>,
    authority_index: u32,
    program: Seq<u8>,
) -> Option<(Seq<u8>, u8)> {
    pda_of(
        seed_prefix(),
        group,
        spec_u32_to_le_bytes(authority_index),
        authority_tag(),
        program,
    )
}

/// What the proposal-scoped derivation for an authority index yields.
pub open spec fn custom_authority_of(
    tx_key: Seq<u8>,
    authority_index: u32,
    program: Seq<u8>,
) -> Option<(Seq<u8>, u8)> {
    pda_of(
        seed_prefix(),
        tx_key,
        spec_u32_to_le_bytes(authority_index),
        custom_authority_tag(),
        program,
    )
}

/// What the derivation of an operation record's address for one proposal
/// and slot yields.
pub open spec fn instruction_record_address_of(
    tx_key: Seq<u8>,
    index: u8,
    program: Seq<u8>,
) -> Option<(Seq<u8>, u8)> {
    pda_of(seed_prefix(), tx_key, seq![index], instruction_tag(), program)
}

/// Derives the group-scoped delegated authority a proposal acts as: the
/// signing identity for `authority_index` under the group record address
/// `group`, together with the bump bound into the proposal at creation.
pub fn derive_default_authority(group: &[u8; 32], authority_index: u32, program: &[u8; 32]) -> (r:
    Option<([u8; 32], u8)>)
    ensures
        match r {
            Some(p) => default_authority_of(group@, authority_index, program@) == Some(
                (p.0@, p.1),
            ),
            None => default_authority_of(group@, authority_index, program@) is None,
        },
{
    let s0 = seed_prefix_bytes();
    let s1 = key_bytes(group);
    let s2 = u32_to_le_bytes(authority_index);
    let s3 = authority_tag_bytes();
    try_find_pda(&s0, &s1, &s2, &s3, program)
}

/// Derives the proposal-scoped one-off authority for `authority_index`
/// under the proposal record address `tx_key`.
pub fn derive_custom_authority(tx_key: &[u8; 32], authority_index: u32, program: &[u8; 32]) -> (r:
    Option<([u8; 32], u8)>)
    ensures
        match r {
            Some(p) => custom_authority_of(tx_key@, authority_index, program@) == Some(
                (p.0@, p.1),
            ),
            None => custom_authority_of(tx_key@, authority_index, program@) is None,
        },
{
    let s0 = seed_prefix_bytes();
    let s1 = key_bytes(tx_key);
    let s2 = u32_to_le_bytes(authority_index);
    let s3 = custom_authority_tag_bytes();
    try_find_pda(&s0, &s1, &s2, &s3, program)
}

/// Re-verifies that a stored operation record's durable address is exactly
/// the one derived for its owning proposal and slot - the defense against a
/// substituted record during execution.
#[verifier::loop_isolation(false)]
pub fn check_instruction_record_address(
    tx_key: &[u8; 32],
    index: u8,
    program: &[u8; 32],
    record_address: &[u8; 32],
) -> (r: bool)
    ensures
        r == match instruction_record_address_of(tx_key@, index, program@) {
            Some(p) => p.0 == record_address@,
            None => false,
        },
{
    let s0 = seed_prefix_bytes();
    let s1 = key_bytes(tx_key);
    let mut s2: Vec<u8> = Vec::new();
    s2.push(index);
    proof {
        assert(s2@ =~= seq![index]);
    }
    let s3 = instruction_tag_bytes();
    match try_find_pda(&s0, &s1, &s2, &s3, program) {
        Some(p) => {
            let mut i: usize = 0;
            while i < 32
                invariant
                    i <= 32,
                    p.0@.len() == 32,
                    record_address@.len() == 32,
                    forall|j: int| 0 <= j < i ==> p.0@[j] == record_address@[j],
                decreases 32 - i,
            {
                if p.0[i] != record_address[i] {
                    proof {
                        assert(p.0@ != record_address@);
                    }
                    return false;
                }
                i += 1;
            }
            proof {
                assert(p.0@ =~= record_address@);
            }
            true
        },
        None => false,
    }
}

} // verus!
