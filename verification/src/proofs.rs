//! The proof pipeline: for a piece of state at a target height, collect
//! the block, the previous block's state root, the next block's finality
//! proof and the validator set, verify the block's finality, and bundle
//! the verified block with the state proof for that piece of state.
//!
//! The network fetches themselves belong to the transport: the pipeline
//! plans them, consumes their results through the fetch state machine,
//! and never trusts a block whose finality check did not pass.

use vstd::prelude::*;
use crate::error::Error;
use crate::height::Height;

verus! {

#[verifier::external_type_specification]
#[verifier::external_body]
pub struct ExAxonBlock(axon_tools::types::AxonBlock);

#[verifier::external_type_specification]
#[verifier::external_body]
pub struct ExAxonProof(axon_tools::types::Proof);

#[verifier::external_type_specification]
#[verifier::external_body]
pub struct ExValidator(axon_tools::types::Validator);

#[verifier::external_type_specification]
#[verifier::external_body]
pub struct ExH256(axon_tools::types::H256);

/// The block numbers one proof construction needs: the target itself,
/// the block before it (for its state root) and the block after it (for
/// the finality proof that commits the target).
#[derive(Clone, Copy, Debug, PartialEq, Eq, Structural)]
pub struct ProofFetchPlan {
    pub target: u64,
    pub previous: u64,
    pub next: u64,
}

/// The four ingredients of one finality check, all collected for the
/// same height window, which the plan records: the block at the target
/// height, the state root of the block before it, the finality proof
/// committed one block after it, and the validator set.
pub struct ProofIngredients {
    pub plan: ProofFetchPlan,
    pub block: axon_tools::types::AxonBlock,
    pub previous_state_root: axon_tools::types::H256,
    pub block_proof: axon_tools::types::Proof,
    pub validators: Vec<axon_tools::types::Validator>,
}

/// Whether a block validates against a previous state root, a validator
/// set and a finality proof.  The verifier's verdict is a pure function
/// of exactly these four values — hashing and signature checking read
/// nothing else — so it can be named, though it takes pages to state.
pub uninterp spec fn finality_ok(
    block: axon_tools::types::AxonBlock,
    previous_state_root: axon_tools::types::H256,
    validators: Seq<axon_tools::types::Validator>,
    block_proof: axon_tools::types::Proof,
) -> bool;

/// Relies on axon_tools::verify_proof: the block, combined with the
/// previous state root and the finality proof, validates against the
/// validator set's aggregated signature over a weighted quorum — that
/// verdict is `finality_ok` of exactly the given values.  Sorts the
/// validator list as the verifier demands; reports the verifier's own
/// error on failure.
#[verifier::external_body]
fn verify_block_finality(
    block: &axon_tools::types::AxonBlock,
    previous_state_root: &axon_tools::types::H256,
    validators: &mut Vec<axon_tools::types::Validator>,
    block_proof: &axon_tools::types::Proof,
) -> (r: Result<(), String>)
    ensures
        r is Ok <==> finality_ok(*block, *previous_state_root, old(validators)@, *block_proof),
{
    axon_tools::verify_proof(
        block.clone(),
        *previous_state_root,
        validators,
        block_proof.clone(),
    ).map_err(|e| format!("{:?}", e))
}

/// Plans the fetches for a proof at the given height, before any network
/// call: height zero has no previous block and fails right here with the
/// invalid-height error, as does the one height whose next block number
/// would not fit a 64-bit word.
pub fn plan_proof_fetch(height: Height) -> (r: Result<ProofFetchPlan, Error>)
    ensures
        (height.revision_height == 0 || height.revision_height == u64::MAX) <==> r is Err,
        r matches Err(e) ==> e is InvalidHeight,
        r matches Ok(p) ==> p == (ProofFetchPlan {
            target: height.revision_height,
            previous: (height.revision_height - 1) as u64,
            next: (height.revision_height + 1) as u64,
        }),
{
    if height.revision_height == 0 || height.revision_height == u64::MAX {
        return Err(Error::InvalidHeight);
    }
    Ok(
        ProofFetchPlan {
            target: height.revision_height,
            previous: height.revision_height - 1,
            next: height.revision_height + 1,
        },
    )
}

/// Where the ingredient collection stands: which fetch it expects next,
/// with everything collected so far.
pub enum FetchState {
    /// Waiting for the block at the target height.
    NeedBlock { plan: ProofFetchPlan },
    /// Waiting for the previous block's state root.
    NeedPrevRoot { plan: ProofFetchPlan, block: axon_tools::types::AxonBlock },
    /// Waiting for the finality proof of the next block; it may not exist
    /// yet and is polled for until it does or the caller cancels.
    NeedFinalityProof {
        plan: ProofFetchPlan,
        block: axon_tools::types::AxonBlock,
        previous_state_root: axon_tools::types::H256,
    },
    /// Waiting for the current validator set.
    NeedValidators {
        plan: ProofFetchPlan,
        block: axon_tools::types::AxonBlock,
        previous_state_root: axon_tools::types::H256,
        block_proof: axon_tools::types::Proof,
    },
    /// All four ingredients collected.
    Ready { ingredients: ProofIngredients },
    /// Collection failed; nothing of it may be used.
    Failed { error: Error },
}

/// What the transport hands back to the state machine.
pub enum FetchEvent {
    /// The block at the target height, or nothing when the node has none.
    Block(Option<axon_tools::types::AxonBlock>),
    /// The previous block's state root, or nothing when the node has no
    /// such block.
    PrevRoot(Option<axon_tools::types::H256>),
    /// The finality proof for the next block; nothing means it does not
    /// exist yet.
    FinalityProof(Option<axon_tools::types::Proof>),
    /// The current validator set.
    Validators(Vec<axon_tools::types::Validator>),
    /// The caller's cancellation signal.
    Cancelled,
}

/// What the transport should do next.
#[derive(Clone, Copy, Debug, PartialEq, Eq, Structural)]
pub enum FetchAction {
    /// Fetch the block with this number.
    FetchBlock(u64),
    /// Fetch the block with this number for its state root.
    FetchPrevRoot(u64),
    /// Fetch the finality proof committed at this block number.
    FetchFinalityProof(u64),
    /// Fetch the current validator set.
    FetchValidators,
    /// Wait one fixed interval, then retry the same fetch.
    Wait,
    /// Stop: the machine is in a terminal state.
    Halt,
}

/// Opens the collection for a plan: the first fetch is the target block.
pub fn fetch_start(plan: ProofFetchPlan) -> (r: (FetchState, FetchAction))
    ensures
        r.0 == (FetchState::NeedBlock { plan }),
        r.1 == FetchAction::FetchBlock(plan.target),
{
    (FetchState::NeedBlock { plan }, FetchAction::FetchBlock(plan.target))
}

/// Advances the collection by one transport answer.  A terminal state
/// absorbs everything; cancellation fails a running collection; a
/// missing finality proof means "not yet" and asks the transport to wait
/// and retry, while any other missing answer is a transport failure; an
/// answer that does not fit the state is a transport failure too.  The
/// ready state is reached only when all four ingredients are in hand.
pub fn fetch_step(state: FetchState, event: FetchEvent) -> (r: (FetchState, FetchAction))
    ensures
        (match (state, event) {
            (FetchState::Ready { ingredients }, _) => r.0 == (FetchState::Ready { ingredients })
                && r.1 == FetchAction::Halt,
            (FetchState::Failed { error }, _) => r.0 == (FetchState::Failed { error }) && r.1
                == FetchAction::Halt,
            (_, FetchEvent::Cancelled) => (r.0 matches FetchState::Failed { error }
                && error is TransportFailure) && r.1 == FetchAction::Halt,
            (FetchState::NeedBlock { plan }, FetchEvent::Block(Some(block))) => r.0 == (
            FetchState::NeedPrevRoot { plan, block }) && r.1 == FetchAction::FetchPrevRoot(
                plan.previous,
            ),
            (FetchState::NeedBlock { .. }, FetchEvent::Block(None)) => (
            r.0 matches FetchState::Failed { error } && error is TransportFailure) && r.1
                == FetchAction::Halt,
            (
                FetchState::NeedPrevRoot { plan, block },
                FetchEvent::PrevRoot(Some(previous_state_root)),
            ) => r.0 == (FetchState::NeedFinalityProof { plan, block, previous_state_root })
                && r.1 == FetchAction::FetchFinalityProof(plan.next),
            (FetchState::NeedPrevRoot { .. }, FetchEvent::PrevRoot(None)) => (
            r.0 matches FetchState::Failed { error } && error is TransportFailure) && r.1
                == FetchAction::Halt,
            (
                FetchState::NeedFinalityProof { plan, block, previous_state_root },
                FetchEvent::FinalityProof(None),
            ) => r.0 == (FetchState::NeedFinalityProof { plan, block, previous_state_root })
                && r.1 == FetchAction::Wait,
            (
                FetchState::NeedFinalityProof { plan, block, previous_state_root },
                FetchEvent::FinalityProof(Some(block_proof)),
            ) => r.0 == (FetchState::NeedValidators {
                plan,
                block,
                previous_state_root,
                block_proof,
            }) && r.1 == FetchAction::FetchValidators,
            (
                FetchState::NeedValidators { plan, block, previous_state_root, block_proof },
                FetchEvent::Validators(validators),
            ) => r.0 == (FetchState::Ready {
                ingredients: ProofIngredients {
                    plan,
                    block,
                    previous_state_root,
                    block_proof,
                    validators,
                },
            }) && r.1 == FetchAction::Halt,
            _ => (r.0 matches FetchState::Failed { error } && error is TransportFailure) && r.1
                == FetchAction::Halt,
        }),
{
    match (state, event) {
        (FetchState::Ready { ingredients }, _) => (
            FetchState::Ready { ingredients },
            FetchAction::Halt,
        ),
        (FetchState::Failed { error }, _) => (FetchState::Failed { error }, FetchAction::Halt),
        (_, FetchEvent::Cancelled) => (
            FetchState::Failed {
                error: Error::TransportFailure { detail: "ingredient fetch cancelled".to_owned() },
            },
            FetchAction::Halt,
        ),
        (FetchState::NeedBlock { plan }, FetchEvent::Block(Some(block))) => (
            FetchState::NeedPrevRoot { plan, block },
            FetchAction::FetchPrevRoot(plan.previous),
        ),
        (FetchState::NeedBlock { .. }, FetchEvent::Block(None)) => (
            FetchState::Failed {
                error: Error::TransportFailure { detail: "no block at target height".to_owned() },
            },
            FetchAction::Halt,
        ),
        (
            FetchState::NeedPrevRoot { plan, block },
            FetchEvent::PrevRoot(Some(previous_state_root)),
        ) => (
            FetchState::NeedFinalityProof { plan, block, previous_state_root },
            FetchAction::FetchFinalityProof(plan.next),
        ),
        (FetchState::NeedPrevRoot { .. }, FetchEvent::PrevRoot(None)) => (
            FetchState::Failed {
                error: Error::TransportFailure {
                    detail: "no block at previous height".to_owned(),
                },
            },
            FetchAction::Halt,
        ),
        (
            FetchState::NeedFinalityProof { plan, block, previous_state_root },
            FetchEvent::FinalityProof(None),
        ) => (
            FetchState::NeedFinalityProof { plan, block, previous_state_root },
            FetchAction::Wait,
        ),
        (
            FetchState::NeedFinalityProof { plan, block, previous_state_root },
            FetchEvent::FinalityProof(Some(block_proof)),
        ) => (
            FetchState::NeedValidators { plan, block, previous_state_root, block_proof },
            FetchAction::FetchValidators,
        ),
        (
            FetchState::NeedValidators { plan, block, previous_state_root, block_proof },
            FetchEvent::Validators(validators),
        ) => (
            FetchState::Ready {
                ingredients: ProofIngredients {
                    plan,
                    block,
                    previous_state_root,
                    block_proof,
                    validators,
                },
            },
            FetchAction::Halt,
        ),
        _ => (
            FetchState::Failed {
                error: Error::TransportFailure {
                    detail: "fetch result does not fit the state".to_owned(),
                },
            },
            FetchAction::Halt,
        ),
    }
}

/// The opaque, chain-specific bundle a counterparty verifier consumes:
/// the finality-verified block, its finality proof, the previous state
/// root, and the account- and storage-level state proof for one
/// commitment path.
pub struct CommitmentProofBundle {
    pub block: axon_tools::types::AxonBlock,
    pub block_proof: axon_tools::types::Proof,
    pub previous_state_root: axon_tools::types::H256,
    pub account_proof: Vec<Vec<u8>>,
    pub storage_proof: Vec<Vec<u8>>,
}

/// The proof object handed back to the protocol engine.  The client and
/// consensus sub-proofs are explicit "not applicable" markers: this
/// chain has no separate client or consensus proof concept, but the
/// engine's envelope has three fields.
pub struct Proofs {
    pub object_proof: CommitmentProofBundle,
    pub client_proof: Option<Vec<u8>>,
    pub consensus_proof: Option<(Vec<u8>, Height)>,
    pub height: Height,
}

/// Assembles the proof bundle from verified ingredients.  `verification`
/// is the outcome of the finality check on exactly these ingredients:
/// any failure there is fatal and reported with the block number and the
/// verifier's text, never downgraded; a storage proof with no element at
/// all is malformed, not "absent".  Only when the check passed and the
/// storage proof is non-empty does a bundle come back, and it embeds the
/// checked ingredients unchanged.
pub fn finalize_proofs(
    height: Height,
    commitment_path: &str,
    ingredients: ProofIngredients,
    verification: Result<(), String>,
    account_proof: Vec<Vec<u8>>,
    storage_proof: Vec<Vec<u8>>,
) -> (r: Result<Proofs, Error>)
    ensures
        (verification matches Err(d) ==> (r matches Err(e) && e matches
            Error::FinalityVerificationFailure { block_number, detail } && block_number
            == height.revision_height && detail == d)),
        (verification is Ok && storage_proof@.len() == 0 ==> (r matches Err(e) && e matches
            Error::MalformedProof { path } && path@ == commitment_path@)),
        (verification is Ok && storage_proof@.len() > 0 ==> (r matches Ok(p) && p.height == height
            && p.object_proof.block == ingredients.block && p.object_proof.block_proof
            == ingredients.block_proof && p.object_proof.previous_state_root
            == ingredients.previous_state_root && p.object_proof.account_proof@ == account_proof@
            && p.object_proof.storage_proof@ == storage_proof@ && (p.client_proof matches Some(c)
            && c@ == seq![0u8]) && (p.consensus_proof matches Some(cp) && cp.0@ == seq![0u8]
            && cp.1 == (Height { revision_number: 0, revision_height: 0 })))),
{
    match verification {
        Err(detail) => Err(
            Error::FinalityVerificationFailure {
                block_number: height.revision_height,
                detail,
            },
        ),
        Ok(()) => {
            if storage_proof.len() == 0 {
                return Err(Error::MalformedProof { path: commitment_path.to_owned() });
            }
            let mut placeholder_client: Vec<u8> = Vec::new();
            placeholder_client.push(0u8);
            let mut placeholder_consensus: Vec<u8> = Vec::new();
            placeholder_consensus.push(0u8);
            proof {
                assert(placeholder_client@ =~= seq![0u8]);
                assert(placeholder_consensus@ =~= seq![0u8]);
            }
            Ok(
                Proofs {
                    object_proof: CommitmentProofBundle {
                        block: ingredients.block,
                        block_proof: ingredients.block_proof,
                        previous_state_root: ingredients.previous_state_root,
                        account_proof,
                        storage_proof,
                    },
                    client_proof: Some(placeholder_client),
                    consensus_proof: Some((placeholder_consensus, Height::zero())),
                    height,
                },
            )
        },
    }
}

/// The whole pipeline after the fetches: checks the height, runs the
/// finality check on the collected ingredients, and assembles the
/// bundle for the commitment path the state proof was fetched for.  A
/// zero target height, or ingredients collected for a different height
/// window, fail with the invalid-height error before anything else; a
/// bundle comes back exactly when, beyond that, the storage proof is
/// non-empty and the finality check passes on the collected
/// ingredients, and it embeds the checked block unchanged.
pub fn get_proofs(
    height: Height,
    commitment_path: &str,
    ingredients: ProofIngredients,
    account_proof: Vec<Vec<u8>>,
    storage_proof: Vec<Vec<u8>>,
) -> (r: Result<Proofs, Error>)
    ensures
        (r is Ok <==> height.revision_height > 0 && ingredients.plan.target
            == height.revision_height && storage_proof@.len() > 0 && finality_ok(
            ingredients.block,
            ingredients.previous_state_root,
            ingredients.validators@,
            ingredients.block_proof,
        )),
        (height.revision_height == 0 || ingredients.plan.target != height.revision_height ==> (
        r matches Err(e) && e is InvalidHeight)),
        (r matches Ok(p) ==> p.height == height
            && p.object_proof.block == ingredients.block && p.object_proof.block_proof
            == ingredients.block_proof && p.object_proof.previous_state_root
            == ingredients.previous_state_root && p.object_proof.storage_proof@.len() > 0
            && p.object_proof.storage_proof@ == storage_proof@ && p.object_proof.account_proof@
            == account_proof@),
        (r matches Err(e) ==> e is InvalidHeight || e is FinalityVerificationFailure
            || (e matches Error::MalformedProof { path } && path@ == commitment_path@)),
{
    if height.revision_height == 0 || ingredients.plan.target != height.revision_height {
        return Err(Error::InvalidHeight);
    }
    let mut ingredients = ingredients;
    let verification = verify_block_finality(
        &ingredients.block,
        &ingredients.previous_state_root,
        &mut ingredients.validators,
        &ingredients.block_proof,
    );
    finalize_proofs(height, commitment_path, ingredients, verification, account_proof, storage_proof)
}

} // verus!
