//! The chain adapter's own state and lifecycle: its immutable identity,
//! the lazily started event monitor, the height-scoped constructors, and
//! the operations this chain deliberately answers with an empty success.

use vstd::prelude::*;
use crate::commitment;
use crate::error::Error;
use crate::height::Height;
use crate::proofs::{get_proofs, ProofIngredients, Proofs};

verus! {

/// What identifies one adapter instance, fixed at construction: the
/// chain, its endpoints, the handler and transfer contract addresses,
/// the store prefix, and the signing key's name.
pub struct ChainIdentity {
    pub chain_id: String,
    pub numeric_chain_id: u64,
    pub rpc_endpoint: String,
    pub websocket_endpoint: String,
    pub contract_address: Vec<u8>,
    pub transfer_contract_address: Vec<u8>,
    pub store_prefix: String,
    pub restore_block_count: u64,
    pub key_name: String,
}

/// A handle to the adapter's background event monitor.  One adapter
/// instance ever owns at most one monitor, so one identifier suffices.
#[derive(Clone, Copy, Debug, PartialEq, Eq, Structural)]
pub struct MonitorHandle {
    pub id: u64,
}

/// The handle of the single monitor an adapter instance may start.
pub open spec fn monitor_handle() -> MonitorHandle {
    MonitorHandle { id: 1 }
}

/// The contract-chain adapter: its identity and the monitor handle once
/// the monitor was started.
pub struct AxonChain {
    pub identity: ChainIdentity,
    pub tx_monitor_cmd: Option<MonitorHandle>,
}

/// What one subscribe call does to the adapter: with a monitor already
/// started it changes nothing and hands the same handle back; without
/// one it records the monitor as started and asks for the background
/// task (the boolean).
pub open spec fn subscribe_transition(s: AxonChain) -> (AxonChain, MonitorHandle, bool) {
    match s.tx_monitor_cmd {
        Some(h) => (s, h, false),
        None => (
            AxonChain { tx_monitor_cmd: Some(monitor_handle()), ..s },
            monitor_handle(),
            true,
        ),
    }
}

/// Subscribing twice hands back a handle to the same monitor, and the
/// second call starts no second background task and changes no state.
pub proof fn lemma_subscribe_idempotent(s: AxonChain)
    ensures
        ({
            let once = subscribe_transition(s);
            let twice = subscribe_transition(once.0);
            &&& twice.1 == once.1
            &&& twice.2 == false
            &&& twice.0 == once.0
        }),
{
}

impl AxonChain {
    /// A fresh adapter for an identity; the monitor is not started.
    pub fn new(identity: ChainIdentity) -> (r: AxonChain)
        ensures
            r.identity == identity,
            r.tx_monitor_cmd is None,
    {
        AxonChain { identity, tx_monitor_cmd: None }
    }

    /// Lazily subscribes to the event monitor, idempotently: the first
    /// call records the monitor and returns true so the caller starts
    /// the background task once; every later call returns the same
    /// handle and false.
    pub fn subscribe(&mut self) -> (r: (MonitorHandle, bool))
        ensures
            (*final(self), r.0, r.1) == subscribe_transition(*old(self)),
    {
        match &self.tx_monitor_cmd {
            Some(h) => {
                let handle = *h;
                (handle, false)
            },
            None => {
                let handle = MonitorHandle { id: 1 };
                self.tx_monitor_cmd = Some(handle);
                (handle, true)
            },
        }
    }

    /// Shuts the adapter down: clears the monitor and tells the caller
    /// whether there was one to terminate.  Safe whether or not
    /// subscribe was ever called.
    pub fn shutdown(&mut self) -> (r: Option<MonitorHandle>)
        ensures
            final(self).identity == old(self).identity,
            final(self).tx_monitor_cmd is None,
            r == old(self).tx_monitor_cmd,
    {
        let taken = self.tx_monitor_cmd;
        self.tx_monitor_cmd = None;
        taken
    }

    /// This chain does not report a protocol version of its own.
    pub fn ibc_version(&self) -> (r: Option<String>)
        ensures
            r is None,
    {
        None
    }

    /// The height-scoped client state for this chain, built without any
    /// network call.  Only the settings variants this chain can satisfy
    /// are accepted.
    pub fn build_client_state(&self, height: Height, settings: ClientSettings) -> (r: Result<
        ClientState,
        Error,
    >)
        ensures
            (settings is AxonCkb || settings is Other) <==> r is Ok,
            r matches Ok(cs) ==> cs.chain_id@ == self.identity.chain_id@ && cs.latest_height
                == height,
            r matches Err(e) ==> e is UnsupportedClientSettings,
    {
        match settings {
            ClientSettings::AxonCkb | ClientSettings::Other => Ok(
                ClientState { chain_id: self.identity.chain_id.clone(), latest_height: height },
            ),
            _ => Err(Error::UnsupportedClientSettings),
        }
    }
}

/// The settings variants a client can be built with; this chain
/// satisfies its own kind and the generic one, and nothing else.
#[derive(Clone, Copy, Debug, PartialEq, Eq, Structural)]
pub enum ClientSettings {
    AxonCkb,
    Other,
    Cosmos,
}

/// A counterparty's belief about this chain: its id and the newest
/// height it trusts.
#[derive(Debug)]
pub struct ClientState {
    pub chain_id: String,
    pub latest_height: Height,
}

/// A commitment root and its timestamp at one height.
#[derive(Debug)]
pub struct ConsensusState {
    pub root: Vec<u8>,
    pub timestamp_ns: u64,
}

/// The consensus state this chain reports for one of its own blocks:
/// the block's state root and its timestamp in nanoseconds; a timestamp
/// beyond the 64-bit nanosecond clock is a decode failure.
pub fn host_consensus_state(state_root: Vec<u8>, timestamp_secs: u64) -> (r: Result<
    ConsensusState,
    Error,
>)
    ensures
        timestamp_secs * crate::queries::SEC_TO_NANO <= u64::MAX ==> (r matches Ok(cs) && cs.root@
            == state_root@ && cs.timestamp_ns == timestamp_secs * crate::queries::SEC_TO_NANO),
        timestamp_secs * crate::queries::SEC_TO_NANO > u64::MAX ==> (r matches Err(e)
            && e is Decode),
{
    match crate::queries::to_timestamp(timestamp_secs) {
        Ok(ns) => Ok(ConsensusState { root: state_root, timestamp_ns: ns }),
        Err(e) => Err(e),
    }
}

/// The placeholder consensus state for a light block this chain does
/// not model: empty root, zero time.
pub fn build_consensus_state() -> (r: ConsensusState)
    ensures
        r.root@ == Seq::<u8>::empty(),
        r.timestamp_ns == 0,
{
    let root: Vec<u8> = Vec::new();
    proof {
        assert(root@ =~= Seq::<u8>::empty());
    }
    ConsensusState { root, timestamp_ns: 0 }
}

/// This chain carries no header content of its own.
#[derive(Clone, Copy, Debug, PartialEq, Eq, Structural)]
pub struct Header {}

/// The header pair for a client update: an empty header and no support
/// headers, as this chain's light client carries no header content.
pub fn build_header() -> (r: (Header, Vec<Header>))
    ensures
        r.1@.len() == 0,
{
    (Header {}, Vec::new())
}

/// How the rpc node answered a liveness probe.
#[derive(Debug)]
pub enum HealthCheck {
    Healthy,
    Unhealthy { detail: String },
}

/// Maps the metadata probe's outcome to a health report, error text
/// kept.
pub fn health_check_outcome(probe: Result<(), String>) -> (r: HealthCheck)
    ensures
        probe is Ok <==> r is Healthy,
        probe matches Err(d) ==> (r matches HealthCheck::Unhealthy { detail } && detail == d),
{
    match probe {
        Ok(()) => HealthCheck::Healthy,
        Err(detail) => HealthCheck::Unhealthy { detail },
    }
}

/// Registering a counterparty payee is not supported on this chain and
/// deliberately reported as plain success, not as an error.
pub fn maybe_register_counterparty_payee() -> (r: Result<(), Error>)
    ensures
        r is Ok,
{
    Ok(())
}

/// Cross-chain queries are not supported on this chain and deliberately
/// answered with an empty success, indistinguishable from "no results".
pub fn cross_chain_query() -> (r: Result<Vec<Vec<u8>>, Error>)
    ensures
        r matches Ok(v) && v@.len() == 0,
{
    Ok(Vec::new())
}

/// An all-balances query is not supported on this chain and deliberately
/// answered with an empty success.
pub fn query_all_balances() -> (r: Result<Vec<(String, String)>, Error>)
    ensures
        r matches Ok(v) && v@.len() == 0,
{
    Ok(Vec::new())
}

/// The answer to an incentivized-packet query: this chain supports none,
/// so the packet field is deliberately empty rather than an error.
#[derive(Debug)]
pub struct IncentivizedPacketResponse {
    pub incentivized_packet: Option<Vec<u8>>,
}

/// Incentivized packets are not supported on this chain and deliberately
/// answered with an empty success.
pub fn query_incentivized_packet() -> (r: Result<IncentivizedPacketResponse, Error>)
    ensures
        r matches Ok(p) && p.incentivized_packet is None,
{
    Ok(IncentivizedPacketResponse { incentivized_packet: None })
}

/// The connection handshake steps a proof can be built for.
#[derive(Clone, Copy, Debug, PartialEq, Eq, Structural)]
pub enum ConnectionMsgType {
    OpenTry,
    OpenAck,
    OpenConfirm,
}

/// The connection states used for diagnostics only, not enforced by the
/// ledger.
#[derive(Clone, Copy, Debug, PartialEq, Eq, Structural)]
pub enum ConnectionState {
    Init,
    TryOpen,
    Open,
}

/// The counterparty connection state each handshake step expects: the
/// try step answers an init, the ack a try-open, the confirm an open.
pub fn expected_connection_state(t: ConnectionMsgType) -> (r: ConnectionState)
    ensures
        t is OpenTry ==> r is Init,
        t is OpenAck ==> r is TryOpen,
        t is OpenConfirm ==> r is Open,
{
    match t {
        ConnectionMsgType::OpenTry => ConnectionState::Init,
        ConnectionMsgType::OpenAck => ConnectionState::TryOpen,
        ConnectionMsgType::OpenConfirm => ConnectionState::Open,
    }
}

/// The packet message kinds a proof can be built for.
#[derive(Clone, Copy, Debug, PartialEq, Eq, Structural)]
pub enum PacketMsgType {
    Recv,
    Ack,
    TimeoutUnordered,
    TimeoutOrdered,
}

/// The commitment path a packet proof is fetched for: the
/// acknowledgement path for an ack, the commitment path for everything
/// else.
pub fn packet_proof_path(packet_type: PacketMsgType, port_id: &str, channel_id: &str, sequence: u64)
    -> (r: String)
    ensures
        packet_type is Ack ==> r@ == commitment::packet_acknowledgement_path_spec(
            port_id@,
            channel_id@,
            sequence,
        ),
        !(packet_type is Ack) ==> r@ == commitment::packet_commitment_path_spec(
            port_id@,
            channel_id@,
            sequence,
        ),
{
    match packet_type {
        PacketMsgType::Ack => commitment::packet_acknowledgement_commitment_path(
            port_id,
            channel_id,
            sequence,
        ),
        _ => commitment::packet_commitment_path(port_id, channel_id, sequence),
    }
}

/// Builds the proof for a connection handshake step: the pipeline runs
/// on the fetched ingredients and the state proof for the connection's
/// commitment path, and this chain contributes no client state of its
/// own alongside it.  A proof comes back exactly when the pipeline
/// accepts: valid height and window, a non-empty storage proof, and a
/// finality check that passes on the ingredients.
pub fn build_connection_proofs_and_client_state(
    _message_type: ConnectionMsgType,
    connection_id: &str,
    height: Height,
    ingredients: ProofIngredients,
    account_proof: Vec<Vec<u8>>,
    storage_proof: Vec<Vec<u8>>,
) -> (r: Result<(Option<ClientState>, Proofs), Error>)
    ensures
        (r is Ok <==> height.revision_height > 0 && ingredients.plan.target
            == height.revision_height && storage_proof@.len() > 0 && crate::proofs::finality_ok(
            ingredients.block,
            ingredients.previous_state_root,
            ingredients.validators@,
            ingredients.block_proof,
        )),
        (height.revision_height == 0 ==> (r matches Err(e) && e is InvalidHeight)),
        (r matches Ok(p) ==> p.0 is None && p.1.height == height
            && p.1.object_proof.storage_proof@.len() > 0 && p.1.object_proof.block
            == ingredients.block),
        (r matches Err(e) ==> e is InvalidHeight || e is FinalityVerificationFailure
            || (e matches Error::MalformedProof { path } && path@
            == commitment::connection_path_spec(connection_id@))),
{
    let path = commitment::connection_path(connection_id);
    match get_proofs(height, path.as_str(), ingredients, account_proof, storage_proof) {
        Ok(proofs) => Ok((None, proofs)),
        Err(e) => Err(e),
    }
}

/// Builds the proof for a channel handshake step, over the channel's
/// commitment path.  A proof comes back exactly when the pipeline
/// accepts.
pub fn build_channel_proofs(
    port_id: &str,
    channel_id: &str,
    height: Height,
    ingredients: ProofIngredients,
    account_proof: Vec<Vec<u8>>,
    storage_proof: Vec<Vec<u8>>,
) -> (r: Result<Proofs, Error>)
    ensures
        (r is Ok <==> height.revision_height > 0 && ingredients.plan.target
            == height.revision_height && storage_proof@.len() > 0 && crate::proofs::finality_ok(
            ingredients.block,
            ingredients.previous_state_root,
            ingredients.validators@,
            ingredients.block_proof,
        )),
        (height.revision_height == 0 ==> (r matches Err(e) && e is InvalidHeight)),
        (r matches Ok(p) ==> p.height == height && p.object_proof.storage_proof@.len() > 0
            && p.object_proof.block == ingredients.block),
        (r matches Err(e) ==> e is InvalidHeight || e is FinalityVerificationFailure
            || (e matches Error::MalformedProof { path } && path@ == commitment::channel_path_spec(
            port_id@,
            channel_id@,
        ))),
{
    let path = commitment::channel_path(port_id, channel_id);
    get_proofs(height, path.as_str(), ingredients, account_proof, storage_proof)
}

/// Builds the proof for a packet message, over the packet's commitment
/// or acknowledgement path.  A proof comes back exactly when the
/// pipeline accepts.
pub fn build_packet_proofs(
    packet_type: PacketMsgType,
    port_id: &str,
    channel_id: &str,
    sequence: u64,
    height: Height,
    ingredients: ProofIngredients,
    account_proof: Vec<Vec<u8>>,
    storage_proof: Vec<Vec<u8>>,
) -> (r: Result<Proofs, Error>)
    ensures
        (r is Ok <==> height.revision_height > 0 && ingredients.plan.target
            == height.revision_height && storage_proof@.len() > 0 && crate::proofs::finality_ok(
            ingredients.block,
            ingredients.previous_state_root,
            ingredients.validators@,
            ingredients.block_proof,
        )),
        (height.revision_height == 0 ==> (r matches Err(e) && e is InvalidHeight)),
        (r matches Ok(p) ==> p.height == height && p.object_proof.storage_proof@.len() > 0
            && p.object_proof.block == ingredients.block),
        (r matches Err(e) ==> e is InvalidHeight || e is FinalityVerificationFailure
            || (e matches Error::MalformedProof { path } && path@ == (if packet_type is Ack {
            commitment::packet_acknowledgement_path_spec(port_id@, channel_id@, sequence)
        } else {
            commitment::packet_commitment_path_spec(port_id@, channel_id@, sequence)
        }))),
{
    let path = packet_proof_path(packet_type, port_id, channel_id, sequence);
    get_proofs(height, path.as_str(), ingredients, account_proof, storage_proof)
}

/// Shapes the channel-client-state answer: the ledger reports the state
/// together with a found flag, and only a found state is a result.
pub fn channel_client_state_response(client_state: ClientState, found: bool) -> (r: Option<
    ClientState,
>)
    ensures
        found ==> r == Some(client_state),
        !found ==> r is None,
{
    if found {
        Some(client_state)
    } else {
        None
    }
}

} // verus!
