use relayer_adapter::ckb::{
    convert_msg_to_ckb_tx, CellInput, Converter, IbcChannel, IbcConnections, MsgAddress,
    MsgToTxConverter, OutPoint,
};
use relayer_adapter::dispatch::MsgKind;
use relayer_adapter::error::Error;
use relayer_adapter::events::HandlerEvent;

fn outpoint(tag: u8) -> OutPoint {
    OutPoint { tx_hash: [tag; 32], index: 0 }
}

fn input(tag: u8) -> CellInput {
    CellInput { previous_output: outpoint(tag), since: 0 }
}

fn context() -> Converter {
    Converter {
        channel_input_data: vec![(
            (String::from("channel-0"), String::from("transfer")),
            input(100),
        )],
        channel_cache: vec![(
            String::from("channel-0"),
            IbcChannel { payload: vec![1u8, 2u8], capacity: 500 },
        )],
        connection_cache: Some((IbcConnections { payload: vec![9u8], capacity: 800 }, input(50))),
        packet_input_data: vec![(
            (String::from("channel-0"), String::from("transfer"), 5),
            (input(200), 250),
        )],
        client_id: String::from("client-axon"),
        client_id_bytes: [7u8; 32],
        client_outpoint: outpoint(1),
        chan_contract_outpoint: outpoint(2),
        packet_contract_outpoint: outpoint(3),
        conn_contract_outpoint: outpoint(4),
        packet_owner: [8u8; 32],
        channel_code_hash: [10u8; 32],
        packet_code_hash: [11u8; 32],
        connection_code_hash: [12u8; 32],
    }
}

fn address(channel: &str, port: &str, sequence: u64) -> MsgAddress {
    MsgAddress {
        channel_id: String::from(channel),
        port_id: String::from(port),
        sequence,
    }
}

#[test]
fn getters_answer_from_the_caches() {
    let c = context();
    assert_eq!(c.get_ibc_connections().unwrap().payload, vec![9u8]);
    assert_eq!(c.get_ibc_connections_input().unwrap(), input(50));
    assert_eq!(c.get_ibc_channel("channel-0").unwrap().capacity, 500);
    assert_eq!(c.get_ibc_channel_input("channel-0", "transfer").unwrap(), input(100));
    assert_eq!(c.get_packet_cell_input("channel-0", "transfer", 5).unwrap(), (input(200), 250));
    assert_eq!(c.get_client_id(), "client-axon");
    assert_eq!(c.get_client_id_bytes(), [7u8; 32]);
    assert_eq!(c.get_packet_owner(), [8u8; 32]);
    assert_eq!(c.get_channel_code_hash(), [10u8; 32]);
}

#[test]
fn missing_cache_entries_are_stale_context() {
    let c = context();
    assert!(matches!(c.get_ibc_channel("channel-9"), Err(Error::StaleContext)));
    assert!(matches!(
        c.get_ibc_channel_input("channel-0", "othermodule"),
        Err(Error::StaleContext)
    ));
    assert!(matches!(
        c.get_packet_cell_input("channel-0", "transfer", 6),
        Err(Error::StaleContext)
    ));
}

#[test]
fn connection_message_consumes_the_connections_cell() {
    let info = convert_msg_to_ckb_tx(
        "/ibc.core.connection.v1.MsgConnectionOpenInit",
        &address("", "", 0),
        vec![0xdeu8],
        &context(),
    )
    .unwrap();
    let tx = info.unsigned_tx.unwrap();
    assert_eq!(tx.inputs, vec![input(50)]);
    assert_eq!(tx.cell_deps, vec![outpoint(4), outpoint(1)]);
    assert_eq!(info.envelope.msg_type, MsgKind::ConnOpenInit);
    assert_eq!(info.envelope.content, vec![0xdeu8]);
    assert_eq!(info.input_capacity, 800);
    assert!(info.event.is_none());
}

#[test]
fn channel_opening_consumes_the_connections_cell_too() {
    let info = convert_msg_to_ckb_tx(
        "/ibc.core.channel.v1.MsgChannelOpenInit",
        &address("", "", 0),
        vec![],
        &context(),
    )
    .unwrap();
    let tx = info.unsigned_tx.unwrap();
    assert_eq!(tx.inputs, vec![input(50)]);
    assert_eq!(tx.cell_deps, vec![outpoint(2), outpoint(4), outpoint(1)]);
}

#[test]
fn channel_ack_consumes_the_channel_cell() {
    let info = convert_msg_to_ckb_tx(
        "/ibc.core.channel.v1.MsgChannelOpenAck",
        &address("channel-0", "transfer", 0),
        vec![],
        &context(),
    )
    .unwrap();
    let tx = info.unsigned_tx.unwrap();
    assert_eq!(tx.inputs, vec![input(100)]);
    assert_eq!(tx.cell_deps, vec![outpoint(2), outpoint(1)]);
    assert_eq!(info.input_capacity, 500);
}

#[test]
fn receive_packet_consumes_the_channel_cell() {
    let info = convert_msg_to_ckb_tx(
        "/ibc.core.channel.v1.MsgRecvPacket",
        &address("channel-0", "transfer", 5),
        vec![],
        &context(),
    )
    .unwrap();
    let tx = info.unsigned_tx.unwrap();
    assert_eq!(tx.inputs, vec![input(100)]);
    assert_eq!(tx.cell_deps, vec![outpoint(3), outpoint(2), outpoint(1)]);
}

#[test]
fn acknowledgement_consumes_channel_and_packet_cells() {
    let info = convert_msg_to_ckb_tx(
        "/ibc.core.channel.v1.MsgAcknowledgement",
        &address("channel-0", "transfer", 5),
        vec![],
        &context(),
    )
    .unwrap();
    let tx = info.unsigned_tx.unwrap();
    assert_eq!(tx.inputs, vec![input(100), input(200)]);
    assert_eq!(tx.cell_deps, vec![outpoint(3), outpoint(2), outpoint(1)]);
    // Both consumed protocol cells count towards the input capacity.
    assert_eq!(info.input_capacity, 500 + 250);
}

#[test]
fn create_client_synthesizes_its_event() {
    let info = convert_msg_to_ckb_tx(
        "/ibc.core.client.v1.MsgCreateClient",
        &address("", "", 0),
        vec![],
        &context(),
    )
    .unwrap();
    assert!(info.unsigned_tx.is_none());
    match info.event {
        Some(HandlerEvent::CreateClient { client_id }) => assert_eq!(client_id, "client-axon"),
        _ => panic!("expected a synthesized create-client event"),
    }
}

#[test]
fn stale_cache_fails_the_conversion() {
    let mut c = context();
    c.connection_cache = None;
    assert!(matches!(
        convert_msg_to_ckb_tx(
            "/ibc.core.connection.v1.MsgConnectionOpenAck",
            &address("", "", 0),
            vec![],
            &c,
        ),
        Err(Error::StaleContext)
    ));
    assert!(matches!(
        convert_msg_to_ckb_tx(
            "/ibc.core.channel.v1.MsgRecvPacket",
            &address("channel-8", "transfer", 5),
            vec![],
            &context(),
        ),
        Err(Error::StaleContext)
    ));
}

#[test]
fn timeouts_have_no_cell_conversion() {
    assert!(matches!(
        convert_msg_to_ckb_tx(
            "/ibc.core.channel.v1.MsgTimeout",
            &address("channel-0", "transfer", 5),
            vec![],
            &context(),
        ),
        Err(Error::UnsupportedMessageType { .. })
    ));
    assert!(matches!(
        convert_msg_to_ckb_tx("/not.a.message", &address("", "", 0), vec![], &context()),
        Err(Error::UnsupportedMessageType { .. })
    ));
}
