use anchor_lang::solana_program::pubkey::Pubkey;
use mesh::authority::{
    check_instruction_record_address, derive_custom_authority, derive_default_authority,
};

fn key(fill: u8) -> [u8; 32] {
    [fill; 32]
}

#[test]
fn default_authority_matches_the_host_derivation() {
    let group = key(11);
    let program = key(250);
    let (addr, bump) = derive_default_authority(&group, 1, &program).unwrap();
    let expected = Pubkey::try_find_program_address(
        &[b"squad", &group, &1u32.to_le_bytes(), b"authority"],
        &Pubkey::new_from_array(program),
    )
    .unwrap();
    assert_eq!(addr, expected.0.to_bytes());
    assert_eq!(bump, expected.1);
    assert_ne!(addr, group);
}

#[test]
fn default_authorities_differ_per_index_and_group() {
    let group = key(11);
    let program = key(250);
    let (addr1, _) = derive_default_authority(&group, 1, &program).unwrap();
    let (addr2, _) = derive_default_authority(&group, 2, &program).unwrap();
    let (addr3, _) = derive_default_authority(&key(12), 1, &program).unwrap();
    assert_ne!(addr1, addr2);
    assert_ne!(addr1, addr3);
}

#[test]
fn custom_authority_matches_the_host_derivation_and_differs_from_default() {
    let tx_key = key(33);
    let program = key(250);
    let (addr, bump) = derive_custom_authority(&tx_key, 1, &program).unwrap();
    let expected = Pubkey::try_find_program_address(
        &[b"squad", &tx_key, &1u32.to_le_bytes(), b"ix_authority"],
        &Pubkey::new_from_array(program),
    )
    .unwrap();
    assert_eq!(addr, expected.0.to_bytes());
    assert_eq!(bump, expected.1);
    let (default_addr, _) = derive_default_authority(&tx_key, 1, &program).unwrap();
    assert_ne!(addr, default_addr);
}

#[test]
fn instruction_record_binding_detects_substitution() {
    let tx_key = key(33);
    let program = key(250);
    let (derived, _) = Pubkey::try_find_program_address(
        &[b"squad", &tx_key, &2u8.to_le_bytes(), b"instruction"],
        &Pubkey::new_from_array(program),
    )
    .unwrap();
    let record_address = derived.to_bytes();
    assert!(check_instruction_record_address(&tx_key, 2, &program, &record_address));
    let mut substituted = record_address;
    substituted[0] = substituted[0].wrapping_add(1);
    assert!(!check_instruction_record_address(&tx_key, 2, &program, &substituted));
    assert!(!check_instruction_record_address(&tx_key, 3, &program, &record_address));
}

#[test]
fn proposal_creation_binds_the_derived_bump() {
    let mut ms = mesh::registry::create(900, 1, 7, vec![1, 2]).unwrap();
    let ms_address = key(11);
    let program = key(250);
    let tx = mesh::proposal::create_transaction_with_derived_authority(
        &mut ms,
        &ms_address,
        &program,
        1,
        1,
    )
    .unwrap()
    .unwrap();
    let expected = Pubkey::try_find_program_address(
        &[b"squad", &ms_address, &1u32.to_le_bytes(), b"authority"],
        &Pubkey::new_from_array(program),
    )
    .unwrap();
    assert_eq!(tx.authority_bump, expected.1);
    assert_eq!(tx.authority_index, 1);
    assert_eq!(tx.transaction_index, 1);
    assert_eq!(ms.transaction_index, 1);
}
