//! The compute parts of a token transfer made through the transfer
//! contract: the timeout conversion and the recovery of the sent packet
//! from the transaction's translated events.

use vstd::prelude::*;
use crate::events::{event_views, EventView, EventWithHeightView, IbcEventWithHeight, PacketData, PacketView};

verus! {

/// Seconds per block, used to turn a timeout duration into a block
/// count.
pub const SECS_PER_BLOCK: u64 = 8;

/// The timeout height a transfer duration maps to: the duration in
/// blocks, or zero (no timeout) when none was given.
pub fn transfer_timeout_height(timeout_secs: Option<u64>) -> (r: u64)
    ensures
        timeout_secs matches Some(d) ==> r == d / SECS_PER_BLOCK,
        timeout_secs is None ==> r == 0,
{
    match timeout_secs {
        Some(d) => d / SECS_PER_BLOCK,
        None => 0,
    }
}

/// The packet of the first send-packet event from index `i` on, if any.
pub open spec fn first_send_packet(evs: Seq<EventWithHeightView>, i: int) -> Option<PacketView>
    decreases evs.len() - i,
{
    if !(0 <= i < evs.len()) {
        None
    } else {
        match evs[i].event {
            EventView::SendPacket { packet } => Some(packet),
            _ => first_send_packet(evs, i + 1),
        }
    }
}

/// Finds the packet that was sent: the first send-packet event among a
/// transaction's translated events, if one exists.
pub fn find_send_packet(events: &Vec<IbcEventWithHeight>) -> (r: Option<PacketData>)
    ensures
        (match first_send_packet(event_views(events@), 0) {
            Some(p) => r matches Some(q) && q@ == p,
            None => r is None,
        }),
{
    let ghost evs = event_views(events@);
    let mut i: usize = 0;
    while i < events.len()
        invariant
            0 <= i <= events@.len(),
            evs == event_views(events@),
            first_send_packet(evs, 0) == first_send_packet(evs, i as int),
        decreases events@.len() - i,
    {
        proof {
            assert(evs[i as int] == events@[i as int]@);
        }
        match &events[i].event {
            crate::events::HandlerEvent::SendPacket { packet } => {
                return Some(packet.clone());
            },
            _ => {
            },
        }
        i = i + 1;
    }
    None
}

} // verus!
