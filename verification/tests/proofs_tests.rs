use axon_tools::types::{AxonBlock, AxonHeader, Bloom, H256, H64, Proof as AxonProof, U256};
use bytes::Bytes;
use relayer_adapter::error::Error;
use relayer_adapter::height::Height;
use relayer_adapter::proofs::{
    fetch_start, fetch_step, finalize_proofs, get_proofs, plan_proof_fetch, FetchAction,
    FetchEvent, FetchState, ProofFetchPlan, ProofIngredients,
};

fn h(number: u64) -> Height {
    Height { revision_number: 0, revision_height: number }
}

fn dummy_proof(number: u64) -> AxonProof {
    AxonProof {
        number,
        round: 0,
        block_hash: H256::zero(),
        signature: Bytes::new(),
        bitmap: Bytes::new(),
    }
}

fn dummy_block(number: u64) -> AxonBlock {
    AxonBlock {
        header: AxonHeader {
            prev_hash: H256::zero(),
            proposer: Default::default(),
            state_root: H256::zero(),
            transactions_root: H256::zero(),
            signed_txs_hash: H256::zero(),
            receipts_root: H256::zero(),
            log_bloom: Bloom::zero(),
            difficulty: U256::zero(),
            timestamp: 0,
            number,
            gas_used: U256::zero(),
            gas_limit: U256::zero(),
            extra_data: Bytes::new(),
            mixed_hash: None,
            nonce: H64::zero(),
            base_fee_per_gas: U256::zero(),
            proof: dummy_proof(number),
            call_system_script_count: 0,
            chain_id: 0,
        },
        tx_hashes: vec![],
    }
}

fn dummy_ingredients(number: u64) -> ProofIngredients {
    ProofIngredients {
        plan: ProofFetchPlan { target: number, previous: number.wrapping_sub(1), next: number + 1 },
        block: dummy_block(number),
        previous_state_root: H256::zero(),
        block_proof: dummy_proof(number + 1),
        validators: vec![],
    }
}

#[test]
fn plan_at_height_zero_is_invalid_without_any_fetch() {
    assert!(matches!(plan_proof_fetch(h(0)), Err(Error::InvalidHeight)));
}

#[test]
fn plan_at_largest_height_is_invalid() {
    assert!(matches!(plan_proof_fetch(h(u64::MAX)), Err(Error::InvalidHeight)));
}

#[test]
fn plan_names_previous_and_next_blocks() {
    let plan = plan_proof_fetch(h(5)).unwrap();
    assert_eq!(plan.target, 5);
    assert_eq!(plan.previous, 4);
    assert_eq!(plan.next, 6);
}

#[test]
fn fetch_machine_collects_all_four_ingredients() {
    let plan = plan_proof_fetch(h(5)).unwrap();
    let (state, action) = fetch_start(plan);
    assert_eq!(action, FetchAction::FetchBlock(5));

    let (state, action) = fetch_step(state, FetchEvent::Block(Some(dummy_block(5))));
    assert_eq!(action, FetchAction::FetchPrevRoot(4));

    let (state, action) = fetch_step(state, FetchEvent::PrevRoot(Some(H256::zero())));
    assert_eq!(action, FetchAction::FetchFinalityProof(6));

    // The finality proof for the next block may not exist yet: the
    // machine stays where it is and asks the transport to wait.
    let (state, action) = fetch_step(state, FetchEvent::FinalityProof(None));
    assert_eq!(action, FetchAction::Wait);
    let (state, action) = fetch_step(state, FetchEvent::FinalityProof(None));
    assert_eq!(action, FetchAction::Wait);

    let (state, action) = fetch_step(state, FetchEvent::FinalityProof(Some(dummy_proof(6))));
    assert_eq!(action, FetchAction::FetchValidators);

    let (state, action) = fetch_step(state, FetchEvent::Validators(vec![]));
    assert_eq!(action, FetchAction::Halt);
    match state {
        FetchState::Ready { ingredients } => {
            assert_eq!(ingredients.block.header.number, 5);
            assert_eq!(ingredients.block_proof.number, 6);
        },
        _ => panic!("expected the ready state"),
    }
}

#[test]
fn missing_block_fails_the_collection() {
    let plan = plan_proof_fetch(h(5)).unwrap();
    let (state, _) = fetch_start(plan);
    let (state, action) = fetch_step(state, FetchEvent::Block(None));
    assert_eq!(action, FetchAction::Halt);
    assert!(matches!(state, FetchState::Failed { error: Error::TransportFailure { .. } }));
}

#[test]
fn cancellation_fails_the_collection() {
    let plan = plan_proof_fetch(h(5)).unwrap();
    let (state, _) = fetch_start(plan);
    let (state, action) = fetch_step(state, FetchEvent::Cancelled);
    assert_eq!(action, FetchAction::Halt);
    assert!(matches!(state, FetchState::Failed { error: Error::TransportFailure { .. } }));
}

#[test]
fn get_proofs_at_height_zero_is_invalid() {
    let r = get_proofs(h(0), "connections/connection-0", dummy_ingredients(0), vec![], vec![
        vec![1u8],
    ]);
    assert!(matches!(r, Err(Error::InvalidHeight)));
}

#[test]
fn ingredients_from_another_window_are_invalid() {
    let r = get_proofs(h(6), "connections/connection-0", dummy_ingredients(5), vec![], vec![
        vec![1u8],
    ]);
    assert!(matches!(r, Err(Error::InvalidHeight)));
}

#[test]
fn unverifiable_block_is_a_finality_failure() {
    // These ingredients cannot validate: the proof's block hash does not
    // match the block, and no validator signed anything.
    let r = get_proofs(h(5), "connections/connection-0", dummy_ingredients(5), vec![], vec![
        vec![1u8],
    ]);
    match r {
        Err(Error::FinalityVerificationFailure { block_number, detail }) => {
            assert_eq!(block_number, 5);
            assert!(!detail.is_empty());
        },
        _ => panic!("expected the finality-verification failure"),
    }
}

#[test]
fn empty_storage_proof_is_malformed_and_names_the_path() {
    let r = finalize_proofs(h(5), "connections/connection-0", dummy_ingredients(5), Ok(()), vec![], vec![]);
    match r {
        Err(Error::MalformedProof { path }) => assert_eq!(path, "connections/connection-0"),
        _ => panic!("expected the malformed-proof error"),
    }
}

#[test]
fn verified_ingredients_assemble_the_bundle() {
    let storage = vec![vec![1u8, 2u8], vec![3u8]];
    let account = vec![vec![9u8]];
    let p = finalize_proofs(
        h(5),
        "connections/connection-0",
        dummy_ingredients(5),
        Ok(()),
        account.clone(),
        storage.clone(),
    )
    .unwrap();
    assert_eq!(p.height, h(5));
    assert_eq!(p.object_proof.block.header.number, 5);
    assert_eq!(p.object_proof.account_proof, account);
    assert_eq!(p.object_proof.storage_proof, storage);
    assert_eq!(p.client_proof, Some(vec![0u8]));
    let (consensus_bytes, consensus_height) = p.consensus_proof.unwrap();
    assert_eq!(consensus_bytes, vec![0u8]);
    assert_eq!(consensus_height, h(0));
}

#[test]
fn failed_verification_never_yields_a_bundle() {
    let r = finalize_proofs(
        h(5),
        "connections/connection-0",
        dummy_ingredients(5),
        Err(String::from("bad signature")),
        vec![],
        vec![vec![1u8]],
    );
    match r {
        Err(Error::FinalityVerificationFailure { block_number, detail }) => {
            assert_eq!(block_number, 5);
            assert_eq!(detail, "bad signature");
        },
        _ => panic!("expected the finality-verification failure"),
    }
}
