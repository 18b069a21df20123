use relayer_adapter::dispatch::{
    check_tx_responses, collect_batch, dispatch_ledger_call, msg_kind_of_url, recover_event,
    update_client_event, LedgerCall, MsgKind, TxReceipt,
};
use relayer_adapter::error::Error;
use relayer_adapter::events::{HandlerEvent, IbcEventWithHeight, PacketData};
use relayer_adapter::height::Height;

fn recv_event() -> HandlerEvent {
    HandlerEvent::ReceivePacket {
        packet: PacketData {
            sequence: 5,
            source_port: String::from("transfer"),
            source_channel: String::from("channel-0"),
            destination_port: String::from("transfer"),
            destination_channel: String::from("channel-1"),
        },
    }
}

#[test]
fn url_table_maps_every_known_tag() {
    assert_eq!(
        msg_kind_of_url("/ibc.core.client.v1.MsgCreateClient"),
        Some(MsgKind::CreateClient)
    );
    assert_eq!(
        msg_kind_of_url("/ibc.core.connection.v1.MsgConnectionOpenAck"),
        Some(MsgKind::ConnOpenAck)
    );
    assert_eq!(
        msg_kind_of_url("/ibc.core.channel.v1.MsgChannelCloseConfirm"),
        Some(MsgKind::ChanCloseConfirm)
    );
    assert_eq!(msg_kind_of_url("/ibc.core.channel.v1.MsgTimeout"), Some(MsgKind::Timeout));
    assert_eq!(msg_kind_of_url("/ibc.core.channel.v1.MsgNothing"), None);
}

#[test]
fn timeout_messages_use_the_receive_call() {
    let (kind, call) = dispatch_ledger_call("/ibc.core.channel.v1.MsgTimeout").unwrap();
    assert_eq!(kind, MsgKind::Timeout);
    assert_eq!(call, LedgerCall::RecvPacket);
}

#[test]
fn unknown_url_is_unsupported_and_carries_the_url() {
    match dispatch_ledger_call("/ibc.something.else") {
        Err(Error::UnsupportedMessageType { type_url }) => {
            assert_eq!(type_url, "/ibc.something.else")
        },
        _ => panic!("expected the unsupported-type error"),
    }
}

#[test]
fn update_client_dispatches_to_the_update_call() {
    let (kind, call) = dispatch_ledger_call("/ibc.core.client.v1.MsgUpdateClient").unwrap();
    assert_eq!(kind, MsgKind::UpdateClient);
    assert_eq!(call, LedgerCall::UpdateClient);
}

#[test]
fn one_matching_log_yields_the_event_at_the_receipt_position() {
    let receipt = TxReceipt {
        events: vec![None, Some(recv_event())],
        block_number: Some(42),
        tx_hash: vec![8u8; 32],
    };
    let ev = recover_event(MsgKind::RecvPacket, "", &receipt).unwrap();
    assert!(matches!(ev.event, HandlerEvent::ReceivePacket { .. }));
    assert_eq!(ev.height.revision_height, 42);
    assert_eq!(ev.height.revision_number, 0);
    assert_eq!(ev.tx_hash, vec![8u8; 32]);
}

#[test]
fn zero_matching_logs_is_event_not_found() {
    let receipt = TxReceipt { events: vec![None], block_number: Some(42), tx_hash: vec![8u8; 32] };
    assert!(matches!(
        recover_event(MsgKind::RecvPacket, "", &receipt),
        Err(Error::EventNotFound)
    ));
}

#[test]
fn two_matching_logs_are_ambiguous() {
    let receipt = TxReceipt {
        events: vec![Some(recv_event()), Some(recv_event())],
        block_number: Some(42),
        tx_hash: vec![8u8; 32],
    };
    assert!(matches!(
        recover_event(MsgKind::RecvPacket, "", &receipt),
        Err(Error::AmbiguousEvent)
    ));
}

#[test]
fn receipt_without_block_number_is_still_pending() {
    let receipt = TxReceipt {
        events: vec![Some(recv_event())],
        block_number: None,
        tx_hash: vec![8u8; 32],
    };
    assert!(matches!(
        recover_event(MsgKind::RecvPacket, "", &receipt),
        Err(Error::StillPending)
    ));
}

#[test]
fn timeout_recovery_expects_a_receive_event() {
    let receipt = TxReceipt {
        events: vec![Some(recv_event())],
        block_number: Some(9),
        tx_hash: vec![8u8; 32],
    };
    let ev = recover_event(MsgKind::Timeout, "", &receipt).unwrap();
    assert!(matches!(ev.event, HandlerEvent::ReceivePacket { .. }));
}

#[test]
fn update_client_event_is_synthesized() {
    let ev = update_client_event(String::from("client-7"), 15, vec![2u8; 32]);
    match ev.event {
        HandlerEvent::UpdateClient { client_id } => assert_eq!(client_id, "client-7"),
        _ => panic!("expected an update-client event"),
    }
    assert_eq!(ev.height.revision_height, 15);
}

#[test]
fn update_client_recovery_synthesizes_from_the_message() {
    // The receipt's records are not searched for an update: even with no
    // matching record, the canonical event comes from the message's own
    // client id at the receipt's position.
    let receipt = TxReceipt { events: vec![None], block_number: Some(21), tx_hash: vec![4u8; 32] };
    let ev = recover_event(MsgKind::UpdateClient, "client-7", &receipt).unwrap();
    match ev.event {
        HandlerEvent::UpdateClient { client_id } => assert_eq!(client_id, "client-7"),
        _ => panic!("expected an update-client event"),
    }
    assert_eq!(ev.height.revision_height, 21);
    assert_eq!(ev.tx_hash, vec![4u8; 32]);
}

#[test]
fn update_client_recovery_without_a_block_is_still_pending() {
    let receipt = TxReceipt { events: vec![], block_number: None, tx_hash: vec![4u8; 32] };
    assert!(matches!(
        recover_event(MsgKind::UpdateClient, "client-7", &receipt),
        Err(Error::StillPending)
    ));
}

fn event_at(block: u64) -> IbcEventWithHeight {
    IbcEventWithHeight {
        event: recv_event(),
        height: Height { revision_number: 0, revision_height: block },
        tx_hash: vec![1u8; 32],
    }
}

#[test]
fn batch_of_successes_keeps_input_order() {
    let results = vec![Ok(event_at(1)), Ok(event_at(2)), Ok(event_at(3))];
    let events = collect_batch(results).unwrap();
    let blocks: Vec<u64> = events.iter().map(|e| e.height.revision_height).collect();
    assert_eq!(blocks, vec![1, 2, 3]);
}

#[test]
fn first_failure_aborts_the_batch() {
    let results = vec![
        Ok(event_at(1)),
        Err(Error::StillPending),
        Err(Error::EventNotFound),
        Ok(event_at(4)),
    ];
    assert!(matches!(collect_batch(results), Err(Error::StillPending)));
}

#[test]
fn check_tx_responses_report_success_per_event() {
    let responses = check_tx_responses(&vec![event_at(1), event_at(2)]);
    assert_eq!(responses.len(), 2);
    assert_eq!(responses[0].code, 0);
    assert_eq!(responses[0].data, "receive packet");
    assert_eq!(responses[0].log, "");
    assert_eq!(responses[0].hash, vec![1u8; 32]);
}

#[test]
fn submission_failure_label() {
    let e = Error::SubmissionFailure { detail: String::from("execution reverted") };
    assert_eq!(e.label(), "submission failure");
    assert_eq!(Error::TransportFailure { detail: String::new() }.label(), "transport failure");
}
