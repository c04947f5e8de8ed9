use mesh::errors::GraphsError;
use mesh::execute::{
    execute_instruction, execute_transaction, finalize_execute_instruction,
    finalize_execute_transaction, resolve_account_list, InstructionBlock, SigningMaterial,
};
use mesh::instruction::{
    add_instruction, IncomingInstruction, MsAccountMeta, MsAuthorityType, MsInstruction,
};
use mesh::proposal::{
    activate_transaction, approve_transaction, cancel_transaction, create_transaction,
    reject_transaction, MsTransaction, MsTransactionStatus,
};
use mesh::registry::{add_member, create, Ms};

const ADMIN: u64 = 900;
const PROGRAM: u64 = 500;
const A: u64 = 1;
const B: u64 = 2;
const C: u64 = 3;

fn group(members: Vec<u64>, threshold: u16) -> Ms {
    create(ADMIN, threshold, 7, members).unwrap()
}

fn active_proposal(ms: &mut Ms, creator: u64) -> MsTransaction {
    let mut tx = create_transaction(ms, creator, 1, 255).unwrap();
    activate_transaction(ms, &mut tx, creator).unwrap();
    tx
}

fn sample_operation() -> IncomingInstruction {
    IncomingInstruction {
        program_id: PROGRAM + 1,
        keys: vec![
            MsAccountMeta { pubkey: 41, is_signer: false, is_writable: true },
            MsAccountMeta { pubkey: 42, is_signer: true, is_writable: false },
        ],
        data: vec![9, 9, 9],
    }
}

fn block_for(rec: &MsInstruction) -> InstructionBlock {
    InstructionBlock {
        record: rec.clone(),
        record_owner: PROGRAM,
        program_account: rec.program_id,
        account_keys: rec.keys.iter().map(|k| k.pubkey).collect(),
    }
}

#[test]
fn create_transaction_issues_sequential_numbers() {
    let mut ms = group(vec![A, B, C], 2);
    let tx1 = create_transaction(&mut ms, A, 1, 254).unwrap();
    let tx2 = create_transaction(&mut ms, B, 1, 254).unwrap();
    assert_eq!(tx1.transaction_index, 1);
    assert_eq!(tx2.transaction_index, 2);
    assert_eq!(ms.transaction_index, 2);
    assert_eq!(tx1.status, MsTransactionStatus::Draft);
    assert_eq!(tx1.creator, A);
    assert_eq!(tx1.ms, 7);
    assert_eq!(tx1.authority_index, 1);
    assert_eq!(tx1.authority_bump, 254);
    assert_eq!(tx1.instruction_index, 0);
    assert_eq!(tx1.executed_index, 0);
}

#[test]
fn create_transaction_rejects_a_non_member() {
    let mut ms = group(vec![A, B], 1);
    assert_eq!(create_transaction(&mut ms, 77, 1, 254).unwrap_err(), GraphsError::KeyNotInMultisig);
    assert_eq!(ms.transaction_index, 0);
}

#[test]
fn activate_requires_the_creator() {
    let mut ms = group(vec![A, B], 1);
    let mut tx = create_transaction(&mut ms, A, 1, 254).unwrap();
    assert_eq!(
        activate_transaction(&ms, &mut tx, B),
        Err(GraphsError::InvalidInstructionAccount)
    );
    assert_eq!(activate_transaction(&ms, &mut tx, A), Ok(()));
    assert_eq!(tx.status, MsTransactionStatus::Active);
    assert_eq!(
        activate_transaction(&ms, &mut tx, A),
        Err(GraphsError::InvalidTransactionState)
    );
}

#[test]
fn activate_refuses_a_deprecated_proposal() {
    let mut ms = group(vec![A, B], 1);
    let mut tx = create_transaction(&mut ms, A, 1, 254).unwrap();
    add_member(&mut ms, ADMIN, C).unwrap();
    assert_eq!(
        activate_transaction(&ms, &mut tx, A),
        Err(GraphsError::DeprecatedTransaction)
    );
    assert_eq!(tx.status, MsTransactionStatus::Draft);
}

#[test]
fn vote_switch_removes_the_prior_vote() {
    let mut ms = group(vec![A, B, C], 2);
    let mut tx = active_proposal(&mut ms, A);
    assert_eq!(reject_transaction(&ms, &mut tx, A), Ok(()));
    assert_eq!(tx.rejected, vec![A]);
    assert_eq!(approve_transaction(&ms, &mut tx, A), Ok(()));
    assert_eq!(tx.approved, vec![A]);
    assert!(tx.rejected.is_empty());
    assert_eq!(reject_transaction(&ms, &mut tx, A), Ok(()));
    assert_eq!(tx.rejected, vec![A]);
    assert!(tx.approved.is_empty());
}

#[test]
fn approving_twice_is_a_no_op() {
    let mut ms = group(vec![A, B, C], 2);
    let mut tx = active_proposal(&mut ms, A);
    assert_eq!(approve_transaction(&ms, &mut tx, A), Ok(()));
    assert_eq!(approve_transaction(&ms, &mut tx, A), Ok(()));
    assert_eq!(tx.approved, vec![A]);
    assert_eq!(tx.status, MsTransactionStatus::Active);
}

#[test]
fn votes_by_non_members_are_rejected() {
    let mut ms = group(vec![A, B, C], 2);
    let mut tx = active_proposal(&mut ms, A);
    assert_eq!(approve_transaction(&ms, &mut tx, 77), Err(GraphsError::KeyNotInMultisig));
    assert_eq!(reject_transaction(&ms, &mut tx, 77), Err(GraphsError::KeyNotInMultisig));
    assert!(tx.approved.is_empty() && tx.rejected.is_empty());
}

#[test]
fn votes_on_a_deprecated_proposal_are_rejected() {
    let mut ms = group(vec![A, B, C], 2);
    let mut tx = active_proposal(&mut ms, A);
    add_member(&mut ms, ADMIN, 4).unwrap();
    assert_eq!(approve_transaction(&ms, &mut tx, A), Err(GraphsError::DeprecatedTransaction));
    assert_eq!(reject_transaction(&ms, &mut tx, B), Err(GraphsError::DeprecatedTransaction));
    assert_eq!(tx.status, MsTransactionStatus::Active);
}

#[test]
fn quorum_moves_the_proposal_to_execute_ready() {
    let mut ms = group(vec![A, B, C], 2);
    let mut tx = active_proposal(&mut ms, A);
    assert_eq!(approve_transaction(&ms, &mut tx, A), Ok(()));
    assert_eq!(tx.status, MsTransactionStatus::Active);
    assert_eq!(approve_transaction(&ms, &mut tx, B), Ok(()));
    assert_eq!(tx.status, MsTransactionStatus::ExecuteReady);
}

#[test]
fn the_fifth_rejection_of_seven_members_threshold_three_forces_rejected() {
    let mut ms = group(vec![1, 2, 3, 4, 5, 6, 7], 3);
    let mut tx = active_proposal(&mut ms, 1);
    for member in [1u64, 2, 3, 4] {
        assert_eq!(reject_transaction(&ms, &mut tx, member), Ok(()));
        assert_eq!(tx.status, MsTransactionStatus::Active);
    }
    assert_eq!(reject_transaction(&ms, &mut tx, 5), Ok(()));
    assert_eq!(tx.rejected.len(), 5);
    assert_eq!(tx.status, MsTransactionStatus::Rejected);
}

#[test]
fn cancel_needs_quorum_and_is_idempotent() {
    let mut ms = group(vec![A, B, C], 2);
    let mut tx = active_proposal(&mut ms, A);
    assert_eq!(cancel_transaction(&ms, &mut tx, A), Err(GraphsError::InvalidTransactionState));
    approve_transaction(&ms, &mut tx, A).unwrap();
    approve_transaction(&ms, &mut tx, B).unwrap();
    assert_eq!(cancel_transaction(&ms, &mut tx, A), Ok(()));
    assert_eq!(cancel_transaction(&ms, &mut tx, A), Ok(()));
    assert_eq!(tx.cancelled, vec![A]);
    assert_eq!(tx.status, MsTransactionStatus::ExecuteReady);
    assert_eq!(cancel_transaction(&ms, &mut tx, B), Ok(()));
    assert_eq!(tx.status, MsTransactionStatus::Cancelled);
}

#[test]
fn add_instruction_inherits_the_default_authority() {
    let mut ms = group(vec![A, B], 1);
    let mut tx = create_transaction(&mut ms, A, 3, 251).unwrap();
    let rec = add_instruction(&ms, &mut tx, A, sample_operation(), None, None,
        MsAuthorityType::Custom).unwrap();
    assert_eq!(rec.instruction_index, 1);
    assert_eq!(rec.authority_index, 3);
    assert_eq!(rec.authority_bump, 251);
    assert_eq!(rec.authority_type, MsAuthorityType::Default);
    assert!(!rec.executed);
    assert_eq!(tx.instruction_index, 1);
}

#[test]
fn add_instruction_rejects_half_supplied_authority() {
    let mut ms = group(vec![A, B], 1);
    let mut tx = create_transaction(&mut ms, A, 1, 254).unwrap();
    assert_eq!(
        add_instruction(&ms, &mut tx, A, sample_operation(), Some(2), None,
            MsAuthorityType::Custom).unwrap_err(),
        GraphsError::InvalidAuthorityIndex
    );
    assert_eq!(
        add_instruction(&ms, &mut tx, A, sample_operation(), None, Some(9),
            MsAuthorityType::Custom).unwrap_err(),
        GraphsError::InvalidAuthorityIndex
    );
    assert_eq!(tx.instruction_index, 0);
}

#[test]
fn add_instruction_works_only_in_draft() {
    let mut ms = group(vec![A, B], 1);
    let mut tx = active_proposal(&mut ms, A);
    assert_eq!(
        add_instruction(&ms, &mut tx, A, sample_operation(), None, None,
            MsAuthorityType::Default).unwrap_err(),
        GraphsError::InvalidTransactionState
    );
}

#[test]
fn executing_a_proposal_without_operations_is_immediate() {
    let mut ms = group(vec![A, B], 1);
    let mut tx = active_proposal(&mut ms, A);
    approve_transaction(&ms, &mut tx, A).unwrap();
    assert_eq!(tx.status, MsTransactionStatus::ExecuteReady);
    let plans = execute_transaction(&ms, &mut tx, A, PROGRAM, &vec![]).unwrap();
    assert!(plans.is_empty());
    assert_eq!(tx.status, MsTransactionStatus::Executed);
}

#[test]
fn atomic_execution_replays_every_record_in_order() {
    let mut ms = group(vec![A, B, C], 2);
    let mut tx = create_transaction(&mut ms, A, 1, 254).unwrap();
    let rec1 = add_instruction(&ms, &mut tx, A, sample_operation(), None, None,
        MsAuthorityType::Default).unwrap();
    let rec2 = add_instruction(&ms, &mut tx, A, sample_operation(), Some(4), Some(250),
        MsAuthorityType::Custom).unwrap();
    activate_transaction(&ms, &mut tx, A).unwrap();
    approve_transaction(&ms, &mut tx, A).unwrap();
    approve_transaction(&ms, &mut tx, B).unwrap();
    assert_eq!(tx.status, MsTransactionStatus::ExecuteReady);

    let blocks = vec![block_for(&rec1), block_for(&rec2)];
    let plans = execute_transaction(&ms, &mut tx, B, PROGRAM, &blocks).unwrap();
    assert_eq!(plans.len(), 2);
    assert_eq!(plans[0].program_id, rec1.program_id);
    assert_eq!(plans[0].data, rec1.data);
    assert_eq!(plans[0].accounts, rec1.keys);
    assert_eq!(
        plans[0].signing,
        SigningMaterial::Group { authority_index: 1, authority_bump: 254 }
    );
    assert_eq!(
        plans[1].signing,
        SigningMaterial::Joint {
            ix_authority_index: 4,
            ix_authority_bump: 250,
            tx_authority_index: 1,
            tx_authority_bump: 254,
        }
    );
    assert_eq!(tx.status, MsTransactionStatus::ExecuteReady);
    finalize_execute_transaction(&ms, &mut tx);
    assert_eq!(tx.status, MsTransactionStatus::Executed);
}

#[test]
fn atomic_execution_refuses_a_substituted_account() {
    let mut ms = group(vec![A, B], 1);
    let mut tx = create_transaction(&mut ms, A, 1, 254).unwrap();
    let rec = add_instruction(&ms, &mut tx, A, sample_operation(), None, None,
        MsAuthorityType::Default).unwrap();
    activate_transaction(&ms, &mut tx, A).unwrap();
    approve_transaction(&ms, &mut tx, A).unwrap();

    let mut bad = block_for(&rec);
    bad.account_keys[1] = 4242;
    assert_eq!(
        execute_transaction(&ms, &mut tx, A, PROGRAM, &vec![bad]).unwrap_err(),
        GraphsError::InvalidInstructionAccount
    );
    let mut foreign = block_for(&rec);
    foreign.record_owner = 777;
    assert_eq!(
        execute_transaction(&ms, &mut tx, A, PROGRAM, &vec![foreign]).unwrap_err(),
        GraphsError::InvalidInstructionAccount
    );
    assert_eq!(tx.status, MsTransactionStatus::ExecuteReady);
}

#[test]
fn only_members_execute_unless_external_execution_is_allowed() {
    let mut ms = group(vec![A, B], 1);
    let mut tx = active_proposal(&mut ms, A);
    approve_transaction(&ms, &mut tx, A).unwrap();
    assert_eq!(
        execute_transaction(&ms, &mut tx, 77, PROGRAM, &vec![]).unwrap_err(),
        GraphsError::KeyNotInMultisig
    );
    ms.allow_external_execute = true;
    assert!(execute_transaction(&ms, &mut tx, 77, PROGRAM, &vec![]).is_ok());
}

#[test]
fn sequential_execution_is_ordered_and_bars_the_atomic_mode() {
    let mut ms = group(vec![A, B], 1);
    let mut tx = create_transaction(&mut ms, A, 1, 254).unwrap();
    let mut recs = Vec::new();
    for _ in 0..3 {
        recs.push(add_instruction(&ms, &mut tx, A, sample_operation(), None, None,
            MsAuthorityType::Default).unwrap());
    }
    activate_transaction(&ms, &mut tx, A).unwrap();
    approve_transaction(&ms, &mut tx, A).unwrap();
    assert_eq!(tx.status, MsTransactionStatus::ExecuteReady);

    let keys_of = |rec: &MsInstruction| rec.keys.iter().map(|k| k.pubkey).collect::<Vec<u64>>();

    // step 1 of 3
    let plan = execute_instruction(&ms, &tx, &recs[0], A, recs[0].program_id,
        &keys_of(&recs[0])).unwrap();
    assert_eq!(plan.program_id, recs[0].program_id);
    let (mut rec0, mut rec1, mut rec2) = (recs[0].clone(), recs[1].clone(), recs[2].clone());
    finalize_execute_instruction(&ms, &mut tx, &mut rec0);
    assert!(rec0.executed);
    assert_eq!(tx.executed_index, 1);
    assert_eq!(tx.status, MsTransactionStatus::ExecuteReady);

    // the atomic mode is now barred for good
    assert_eq!(
        execute_transaction(&ms, &mut tx, A, PROGRAM, &vec![]).unwrap_err(),
        GraphsError::PartialExecution
    );

    // step 3 before step 2 is an ordering fault
    assert_eq!(
        execute_instruction(&ms, &tx, &rec2, A, rec2.program_id, &keys_of(&rec2)).unwrap_err(),
        GraphsError::InvalidInstructionAccount
    );

    // a record must not run twice
    assert_eq!(
        execute_instruction(&ms, &tx, &rec0, A, rec0.program_id, &keys_of(&rec0)).unwrap_err(),
        GraphsError::InvalidInstructionAccount
    );

    // steps 2 and 3 in order
    execute_instruction(&ms, &tx, &rec1, A, rec1.program_id, &keys_of(&rec1)).unwrap();
    finalize_execute_instruction(&ms, &mut tx, &mut rec1);
    assert_eq!(tx.executed_index, 2);
    execute_instruction(&ms, &tx, &rec2, A, rec2.program_id, &keys_of(&rec2)).unwrap();
    finalize_execute_instruction(&ms, &mut tx, &mut rec2);
    assert_eq!(tx.executed_index, 3);
    assert_eq!(tx.executed_index, tx.instruction_index);
    assert_eq!(tx.status, MsTransactionStatus::Executed);
}

#[test]
fn full_quorum_scenario_ends_executed() {
    let mut ms = group(vec![A, B, C], 2);
    let mut tx = create_transaction(&mut ms, A, 1, 254).unwrap();
    let rec1 = add_instruction(&ms, &mut tx, A, sample_operation(), None, None,
        MsAuthorityType::Default).unwrap();
    let rec2 = add_instruction(&ms, &mut tx, A, sample_operation(), None, None,
        MsAuthorityType::Default).unwrap();
    activate_transaction(&ms, &mut tx, A).unwrap();
    approve_transaction(&ms, &mut tx, A).unwrap();
    assert_eq!(tx.status, MsTransactionStatus::Active);
    approve_transaction(&ms, &mut tx, B).unwrap();
    assert_eq!(tx.status, MsTransactionStatus::ExecuteReady);
    let blocks = vec![block_for(&rec1), block_for(&rec2)];
    let plans = execute_transaction(&ms, &mut tx, C, PROGRAM, &blocks).unwrap();
    assert_eq!(plans.len(), 2);
    finalize_execute_transaction(&ms, &mut tx);
    assert_eq!(tx.status, MsTransactionStatus::Executed);
    assert_eq!(tx.executed_index, 0);
}

#[test]
fn account_selection_refuses_an_index_out_of_range() {
    assert_eq!(resolve_account_list(&vec![0, 2, 1], 3), Some(vec![0, 2, 1]));
    assert_eq!(resolve_account_list(&vec![0, 3], 3), None);
    assert_eq!(resolve_account_list(&vec![], 0), Some(vec![]));
}
