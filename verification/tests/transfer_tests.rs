use relayer_adapter::events::{HandlerEvent, IbcEventWithHeight, PacketData};
use relayer_adapter::height::Height;
use relayer_adapter::transfer::{find_send_packet, transfer_timeout_height};

fn event(ev: HandlerEvent, block: u64) -> IbcEventWithHeight {
    IbcEventWithHeight {
        event: ev,
        height: Height { revision_number: 0, revision_height: block },
        tx_hash: vec![0u8; 32],
    }
}

fn packet(sequence: u64) -> PacketData {
    PacketData {
        sequence,
        source_port: String::from("transfer"),
        source_channel: String::from("channel-0"),
        destination_port: String::from("transfer"),
        destination_channel: String::from("channel-1"),
    }
}

#[test]
fn timeout_duration_maps_to_blocks() {
    assert_eq!(transfer_timeout_height(Some(80)), 10);
    assert_eq!(transfer_timeout_height(Some(7)), 0);
    assert_eq!(transfer_timeout_height(None), 0);
}

#[test]
fn the_first_send_packet_is_found() {
    let events = vec![
        event(HandlerEvent::CreateClient { client_id: String::from("c") }, 1),
        event(HandlerEvent::SendPacket { packet: packet(4) }, 2),
        event(HandlerEvent::SendPacket { packet: packet(9) }, 3),
    ];
    let found = find_send_packet(&events).unwrap();
    assert_eq!(found.sequence, 4);
}

#[test]
fn no_send_packet_yields_nothing() {
    let events = vec![event(HandlerEvent::CreateClient { client_id: String::from("c") }, 1)];
    assert!(find_send_packet(&events).is_none());
}
