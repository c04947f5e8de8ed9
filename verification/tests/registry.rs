use mesh::errors::GraphsError;
use mesh::registry::{
    add_authority, add_member, add_member_and_change_threshold, change_external_authority,
    change_threshold, create, realloc_size, remove_member, remove_member_and_change_threshold,
    set_external_execute, top_up_amount,
};

const ADMIN: u64 = 900;

#[test]
fn create_dedupes_and_sorts() {
    let ms = create(ADMIN, 2, 7, vec![3, 1, 2, 2, 3]).unwrap();
    assert_eq!(ms.keys, vec![1, 2, 3]);
    assert_eq!(ms.threshold, 2);
    assert_eq!(ms.transaction_index, 0);
    assert_eq!(ms.ms_change_index, 0);
    assert_eq!(ms.authority_index, 1);
    assert_eq!(ms.external_authority, ADMIN);
    assert_eq!(ms.create_key, 7);
    assert!(!ms.allow_external_execute);
}

#[test]
fn create_rejects_empty_members() {
    assert_eq!(create(ADMIN, 1, 7, vec![]).unwrap_err(), GraphsError::EmptyMembers);
}

#[test]
fn create_rejects_zero_threshold() {
    assert_eq!(create(ADMIN, 0, 7, vec![1, 2]).unwrap_err(), GraphsError::InvalidThreshold);
}

#[test]
fn create_rejects_threshold_above_member_count() {
    assert_eq!(create(ADMIN, 3, 7, vec![1, 2, 2]).unwrap_err(), GraphsError::InvalidThreshold);
}

#[test]
fn add_member_rejects_at_the_sixteen_bit_ceiling() {
    let mut ms = create(ADMIN, 1, 7, vec![0]).unwrap();
    ms.keys = (0..65535u64).collect();
    assert_eq!(add_member(&mut ms, ADMIN, 70000), Err(GraphsError::MaxMembersReached));
    assert_eq!(ms.keys.len(), 65535);
}

#[test]
fn add_member_keeps_order_and_bumps_change_index() {
    let mut ms = create(ADMIN, 2, 7, vec![10, 30]).unwrap();
    ms.transaction_index = 5;
    assert_eq!(add_member(&mut ms, ADMIN, 20), Ok(()));
    assert_eq!(ms.keys, vec![10, 20, 30]);
    assert_eq!(ms.ms_change_index, 5);
    assert_eq!(ms.threshold, 2);
}

#[test]
fn add_member_is_idempotent_on_keys() {
    let mut ms = create(ADMIN, 1, 7, vec![10, 30]).unwrap();
    assert_eq!(add_member(&mut ms, ADMIN, 30), Ok(()));
    assert_eq!(ms.keys, vec![10, 30]);
}

#[test]
fn add_member_requires_the_external_authority() {
    let mut ms = create(ADMIN, 1, 7, vec![10]).unwrap();
    assert_eq!(add_member(&mut ms, 111, 20), Err(GraphsError::InvalidExternalAuthority));
    assert_eq!(ms.keys, vec![10]);
}

#[test]
fn remove_member_refuses_the_sole_member() {
    let mut ms = create(ADMIN, 1, 7, vec![10]).unwrap();
    assert_eq!(remove_member(&mut ms, ADMIN, 10), Err(GraphsError::CannotRemoveSoloMember));
    assert_eq!(ms.keys, vec![10]);
}

#[test]
fn remove_member_clamps_threshold_to_new_count() {
    let mut ms = create(ADMIN, 3, 7, vec![1, 2, 3]).unwrap();
    ms.transaction_index = 9;
    assert_eq!(remove_member(&mut ms, ADMIN, 3), Ok(()));
    assert_eq!(ms.keys, vec![1, 2]);
    assert_eq!(ms.threshold, 2);
    assert_eq!(ms.ms_change_index, 9);
}

#[test]
fn remove_member_of_a_non_member_still_bumps_the_change_index() {
    let mut ms = create(ADMIN, 1, 7, vec![1, 2]).unwrap();
    ms.transaction_index = 4;
    assert_eq!(remove_member(&mut ms, ADMIN, 42), Ok(()));
    assert_eq!(ms.keys, vec![1, 2]);
    assert_eq!(ms.ms_change_index, 4);
}

#[test]
fn change_threshold_rejects_zero() {
    let mut ms = create(ADMIN, 1, 7, vec![1, 2]).unwrap();
    assert_eq!(change_threshold(&mut ms, ADMIN, 0), Err(GraphsError::InvalidThreshold));
    assert_eq!(ms.threshold, 1);
}

#[test]
fn change_threshold_clamps_to_member_count() {
    let mut ms = create(ADMIN, 1, 7, vec![1, 2, 3]).unwrap();
    assert_eq!(change_threshold(&mut ms, ADMIN, 5), Ok(()));
    assert_eq!(ms.threshold, 3);
}

#[test]
fn add_member_and_change_threshold_applies_both_atomically() {
    let mut ms = create(ADMIN, 1, 7, vec![1, 2]).unwrap();
    assert_eq!(add_member_and_change_threshold(&mut ms, ADMIN, 3, 3), Ok(()));
    assert_eq!(ms.keys, vec![1, 2, 3]);
    assert_eq!(ms.threshold, 3);
}

#[test]
fn add_member_and_change_threshold_rejects_zero_without_adding() {
    let mut ms = create(ADMIN, 1, 7, vec![1, 2]).unwrap();
    assert_eq!(
        add_member_and_change_threshold(&mut ms, ADMIN, 3, 0),
        Err(GraphsError::InvalidThreshold)
    );
    assert_eq!(ms.keys, vec![1, 2]);
    assert_eq!(ms.threshold, 1);
}

#[test]
fn remove_member_and_change_threshold_observes_the_new_count() {
    let mut ms = create(ADMIN, 2, 7, vec![1, 2, 3]).unwrap();
    assert_eq!(remove_member_and_change_threshold(&mut ms, ADMIN, 3, 9), Ok(()));
    assert_eq!(ms.keys, vec![1, 2]);
    assert_eq!(ms.threshold, 2);
}

#[test]
fn set_external_execute_flips_the_flag() {
    let mut ms = create(ADMIN, 1, 7, vec![1]).unwrap();
    assert_eq!(set_external_execute(&mut ms, ADMIN, true), Ok(()));
    assert!(ms.allow_external_execute);
}

#[test]
fn change_external_authority_hands_over_control() {
    let mut ms = create(ADMIN, 1, 7, vec![1]).unwrap();
    assert_eq!(change_external_authority(&mut ms, ADMIN, 901), Ok(()));
    assert_eq!(ms.external_authority, 901);
    assert_eq!(change_external_authority(&mut ms, ADMIN, 902),
        Err(GraphsError::InvalidExternalAuthority));
}

#[test]
fn add_authority_counts_up() {
    let mut ms = create(ADMIN, 1, 7, vec![1]).unwrap();
    assert_eq!(add_authority(&mut ms, ADMIN), Ok(()));
    assert_eq!(ms.authority_index, 2);
}

#[test]
fn realloc_size_grows_by_ten_spots_when_full() {
    assert_eq!(realloc_size(90 + 32 * 2, 2), Some(90 + 32 * 2 + 320));
    assert_eq!(realloc_size(90 + 32 * 2, 1), None);
}

#[test]
fn top_up_amount_covers_the_shortfall() {
    assert_eq!(top_up_amount(100, 40), 60);
    assert_eq!(top_up_amount(50, 100), 0);
    assert_eq!(top_up_amount(0, 0), 1);
}
