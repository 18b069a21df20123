use relayer_adapter::events::{
    events_from_receipt_logs, fetch_all_ibc_events_from_tx_logs, filter_packet_events,
    find_client_update, translate_log, HandlerEvent, PacketData, PacketFilter, RawLog,
    WithBlockDataType,
};

fn handler_address() -> Vec<u8> {
    vec![0xaau8; 20]
}

fn other_address() -> Vec<u8> {
    vec![0xbbu8; 20]
}

fn packet(sequence: u64) -> PacketData {
    PacketData {
        sequence,
        source_port: String::from("transfer"),
        source_channel: String::from("channel-0"),
        destination_port: String::from("transfer"),
        destination_channel: String::from("channel-1"),
    }
}

fn send_log(sequence: u64, block: u64) -> RawLog {
    RawLog {
        address: handler_address(),
        block_number: Some(block),
        tx_hash: vec![7u8; 32],
        event: Some(HandlerEvent::SendPacket { packet: packet(sequence) }),
    }
}

fn filter_for(sequences: Vec<u64>) -> PacketFilter {
    PacketFilter {
        sequences,
        source_port: String::from("transfer"),
        source_channel: String::from("channel-0"),
        destination_port: String::from("transfer"),
        destination_channel: String::from("channel-1"),
    }
}

#[test]
fn foreign_address_translates_to_nothing() {
    let log = RawLog { address: other_address(), ..send_log(1, 10) };
    assert!(translate_log(&log, &handler_address()).is_none());
}

#[test]
fn undecodable_record_translates_to_nothing() {
    let log = RawLog { event: None, ..send_log(1, 10) };
    assert!(translate_log(&log, &handler_address()).is_none());
}

#[test]
fn pending_record_translates_to_nothing() {
    let log = RawLog { block_number: None, ..send_log(1, 10) };
    assert!(translate_log(&log, &handler_address()).is_none());
}

#[test]
fn translation_keeps_height_and_hash() {
    let ev = translate_log(&send_log(5, 77), &handler_address()).unwrap();
    assert_eq!(ev.height.revision_number, 0);
    assert_eq!(ev.height.revision_height, 77);
    assert_eq!(ev.tx_hash, vec![7u8; 32]);
    assert!(matches!(ev.event, HandlerEvent::SendPacket { .. }));
}

#[test]
fn packet_query_applies_every_filter_field() {
    let logs = vec![send_log(1, 10), send_log(5, 11), send_log(9, 12)];
    let events = filter_packet_events(
        &logs,
        &handler_address(),
        WithBlockDataType::SendPacket,
        &filter_for(vec![5]),
    );
    assert_eq!(events.len(), 1);
    match &events[0].event {
        HandlerEvent::SendPacket { packet } => assert_eq!(packet.sequence, 5),
        _ => panic!("expected a send-packet event"),
    }
}

#[test]
fn empty_sequence_set_means_no_sequence_filter() {
    let logs = vec![send_log(1, 10), send_log(5, 11)];
    let events = filter_packet_events(
        &logs,
        &handler_address(),
        WithBlockDataType::SendPacket,
        &filter_for(vec![]),
    );
    assert_eq!(events.len(), 2);
}

#[test]
fn mismatched_channel_is_filtered_out() {
    let mut wrong = send_log(5, 11);
    wrong.event = Some(HandlerEvent::SendPacket {
        packet: PacketData {
            source_channel: String::from("channel-9"),
            ..packet(5)
        },
    });
    let events = filter_packet_events(
        &vec![wrong],
        &handler_address(),
        WithBlockDataType::SendPacket,
        &filter_for(vec![]),
    );
    assert_eq!(events.len(), 0);
}

#[test]
fn wrong_kind_is_filtered_out() {
    let logs = vec![send_log(5, 11)];
    let events = filter_packet_events(
        &logs,
        &handler_address(),
        WithBlockDataType::WriteAck,
        &filter_for(vec![]),
    );
    assert_eq!(events.len(), 0);
}

fn update_log(client: &str, block: u64) -> RawLog {
    RawLog {
        address: handler_address(),
        block_number: Some(block),
        tx_hash: vec![3u8; 32],
        event: Some(HandlerEvent::UpdateClient { client_id: String::from(client) }),
    }
}

#[test]
fn client_query_returns_first_match_only() {
    let logs = vec![
        update_log("client-b", 4),
        update_log("client-a", 5),
        update_log("client-a", 6),
    ];
    let found = find_client_update(&logs, &handler_address(), &String::from("client-a")).unwrap();
    assert_eq!(found.height.revision_height, 5);
    match found.event {
        HandlerEvent::UpdateClient { client_id } => assert_eq!(client_id, "client-a"),
        _ => panic!("expected an update-client event"),
    }
}

#[test]
fn client_query_without_match_returns_nothing() {
    let logs = vec![update_log("client-b", 4)];
    assert!(find_client_update(&logs, &handler_address(), &String::from("client-a")).is_none());
}

#[test]
fn tx_log_events_carry_the_transaction_position() {
    let logs = vec![send_log(1, 99), RawLog { event: None, ..send_log(2, 99) }];
    let events = fetch_all_ibc_events_from_tx_logs(123, &vec![9u8; 32], &logs).unwrap();
    assert_eq!(events.len(), 1);
    assert_eq!(events[0].height.revision_height, 123);
    assert_eq!(events[0].tx_hash, vec![9u8; 32]);
}

#[test]
fn receipt_logs_translate_at_their_own_heights() {
    let logs = vec![
        send_log(1, 50),
        RawLog { address: other_address(), ..send_log(2, 51) },
        send_log(3, 52),
    ];
    let events = events_from_receipt_logs(&logs, &handler_address());
    assert_eq!(events.len(), 2);
    assert_eq!(events[0].height.revision_height, 50);
    assert_eq!(events[1].height.revision_height, 52);
}
