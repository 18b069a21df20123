use relayer_adapter::adapter::{
    channel_client_state_response, ClientState,
    build_consensus_state, build_header, cross_chain_query, expected_connection_state,
    health_check_outcome, host_consensus_state, maybe_register_counterparty_payee,
    packet_proof_path, query_all_balances, query_incentivized_packet, AxonChain, ChainIdentity,
    ClientSettings, ConnectionMsgType, ConnectionState, HealthCheck, PacketMsgType,
};
use relayer_adapter::error::Error;
use relayer_adapter::height::Height;

fn identity() -> ChainIdentity {
    ChainIdentity {
        chain_id: String::from("axon-test"),
        numeric_chain_id: 2022,
        rpc_endpoint: String::from("http://localhost:8000"),
        websocket_endpoint: String::from("ws://localhost:8001"),
        contract_address: vec![0xaau8; 20],
        transfer_contract_address: vec![0xbbu8; 20],
        store_prefix: String::from("ibc"),
        restore_block_count: 10,
        key_name: String::from("relayer"),
    }
}

#[test]
fn subscribe_twice_returns_the_same_monitor() {
    let mut chain = AxonChain::new(identity());
    let (first, started_first) = chain.subscribe();
    assert!(started_first);
    let (second, started_second) = chain.subscribe();
    assert!(!started_second);
    assert_eq!(first, second);
    let (third, started_third) = chain.subscribe();
    assert!(!started_third);
    assert_eq!(first, third);
}

#[test]
fn shutdown_is_safe_without_subscribe() {
    let mut chain = AxonChain::new(identity());
    assert!(chain.shutdown().is_none());
}

#[test]
fn shutdown_hands_the_monitor_back_once() {
    let mut chain = AxonChain::new(identity());
    let (handle, _) = chain.subscribe();
    assert_eq!(chain.shutdown(), Some(handle));
    assert!(chain.shutdown().is_none());
}

#[test]
fn client_state_is_built_for_supported_settings() {
    let chain = AxonChain::new(identity());
    let height = Height { revision_number: 0, revision_height: 33 };
    let cs = chain.build_client_state(height, ClientSettings::AxonCkb).unwrap();
    assert_eq!(cs.chain_id, "axon-test");
    assert_eq!(cs.latest_height, height);
    assert!(chain.build_client_state(height, ClientSettings::Other).is_ok());
    assert!(matches!(
        chain.build_client_state(height, ClientSettings::Cosmos),
        Err(Error::UnsupportedClientSettings)
    ));
}

#[test]
fn ibc_version_is_unreported() {
    let chain = AxonChain::new(identity());
    assert!(chain.ibc_version().is_none());
}

#[test]
fn consensus_state_constructors() {
    let cs = build_consensus_state();
    assert!(cs.root.is_empty());
    assert_eq!(cs.timestamp_ns, 0);

    let host = host_consensus_state(vec![4u8; 32], 6).unwrap();
    assert_eq!(host.root, vec![4u8; 32]);
    assert_eq!(host.timestamp_ns, 6_000_000_000);
    assert!(matches!(host_consensus_state(vec![], u64::MAX), Err(Error::Decode { .. })));
}

#[test]
fn header_is_empty() {
    let (_, support) = build_header();
    assert!(support.is_empty());
}

#[test]
fn health_outcomes_map_exactly() {
    assert!(matches!(health_check_outcome(Ok(())), HealthCheck::Healthy));
    match health_check_outcome(Err(String::from("node down"))) {
        HealthCheck::Unhealthy { detail } => assert_eq!(detail, "node down"),
        _ => panic!("expected the unhealthy report"),
    }
}

#[test]
fn unsupported_operations_answer_empty_success() {
    assert!(maybe_register_counterparty_payee().is_ok());
    assert!(cross_chain_query().unwrap().is_empty());
    assert!(query_all_balances().unwrap().is_empty());
    assert!(query_incentivized_packet().unwrap().incentivized_packet.is_none());
}

#[test]
fn handshake_steps_expect_the_previous_state() {
    assert!(matches!(
        expected_connection_state(ConnectionMsgType::OpenTry),
        ConnectionState::Init
    ));
    assert!(matches!(
        expected_connection_state(ConnectionMsgType::OpenAck),
        ConnectionState::TryOpen
    ));
    assert!(matches!(
        expected_connection_state(ConnectionMsgType::OpenConfirm),
        ConnectionState::Open
    ));
}

#[test]
fn packet_proofs_pick_the_right_path() {
    assert_eq!(
        packet_proof_path(PacketMsgType::Ack, "transfer", "channel-0", 5),
        "acks/ports/transfer/channels/channel-0/sequences/5"
    );
    assert_eq!(
        packet_proof_path(PacketMsgType::Recv, "transfer", "channel-0", 5),
        "commitments/ports/transfer/channels/channel-0/sequences/5"
    );
    assert_eq!(
        packet_proof_path(PacketMsgType::TimeoutUnordered, "transfer", "channel-0", 5),
        "commitments/ports/transfer/channels/channel-0/sequences/5"
    );
}

#[test]
fn channel_client_state_needs_the_found_flag() {
    let state = ClientState {
        chain_id: String::from("axon-test"),
        latest_height: Height { revision_number: 0, revision_height: 4 },
    };
    assert!(channel_client_state_response(state, false).is_none());
    let state = ClientState {
        chain_id: String::from("axon-test"),
        latest_height: Height { revision_number: 0, revision_height: 4 },
    };
    let found = channel_client_state_response(state, true).unwrap();
    assert_eq!(found.chain_id, "axon-test");
}
