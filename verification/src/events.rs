//! The event translator: one raw ledger log/record in, zero or one
//! canonical protocol event out.
//!
//! Only records emitted by the configured handler address count; every
//! ledger event variant maps one-to-one to a canonical event kind; an
//! optional packet filter or a requested client id narrows what is kept.

use vstd::prelude::*;
use crate::error::Error;
use crate::height::Height;

verus! {

/// The packet fields a ledger log carries.
#[derive(Debug)]
pub struct PacketData {
    pub sequence: u64,
    pub source_port: String,
    pub source_channel: String,
    pub destination_port: String,
    pub destination_channel: String,
}

/// Spec-level image of `PacketData`.
pub struct PacketView {
    pub sequence: u64,
    pub source_port: Seq<char>,
    pub source_channel: Seq<char>,
    pub destination_port: Seq<char>,
    pub destination_channel: Seq<char>,
}

impl View for PacketData {
    type V = PacketView;

    open spec fn view(&self) -> PacketView {
        PacketView {
            sequence: self.sequence,
            source_port: self.source_port@,
            source_channel: self.source_channel@,
            destination_port: self.destination_port@,
            destination_channel: self.destination_channel@,
        }
    }
}

/// A decoded ledger event, one variant per handler event the contract
/// emits.
#[derive(Debug)]
pub enum HandlerEvent {
    CreateClient { client_id: String },
    UpdateClient { client_id: String },
    OpenInitConnection { connection_id: String },
    OpenTryConnection { connection_id: String },
    OpenAckConnection { connection_id: String },
    OpenConfirmConnection { connection_id: String },
    OpenInitChannel { port_id: String, channel_id: String },
    OpenTryChannel { port_id: String, channel_id: String },
    OpenAckChannel { port_id: String, channel_id: String },
    OpenConfirmChannel { port_id: String, channel_id: String },
    CloseInitChannel { port_id: String, channel_id: String },
    CloseConfirmChannel { port_id: String, channel_id: String },
    SendPacket { packet: PacketData },
    ReceivePacket { packet: PacketData },
    WriteAcknowledgement { packet: PacketData, ack: Vec<u8> },
    AcknowledgePacket { packet: PacketData },
}

/// Spec-level image of `HandlerEvent`.
pub enum EventView {
    CreateClient { client_id: Seq<char> },
    UpdateClient { client_id: Seq<char> },
    OpenInitConnection { connection_id: Seq<char> },
    OpenTryConnection { connection_id: Seq<char> },
    OpenAckConnection { connection_id: Seq<char> },
    OpenConfirmConnection { connection_id: Seq<char> },
    OpenInitChannel { port_id: Seq<char>, channel_id: Seq<char> },
    OpenTryChannel { port_id: Seq<char>, channel_id: Seq<char> },
    OpenAckChannel { port_id: Seq<char>, channel_id: Seq<char> },
    OpenConfirmChannel { port_id: Seq<char>, channel_id: Seq<char> },
    CloseInitChannel { port_id: Seq<char>, channel_id: Seq<char> },
    CloseConfirmChannel { port_id: Seq<char>, channel_id: Seq<char> },
    SendPacket { packet: PacketView },
    ReceivePacket { packet: PacketView },
    WriteAcknowledgement { packet: PacketView, ack: Seq<u8> },
    AcknowledgePacket { packet: PacketView },
}

impl View for HandlerEvent {
    type V = EventView;

    open spec fn view(&self) -> EventView {
        match self {
            HandlerEvent::CreateClient { client_id } => (EventView::CreateClient {
                client_id: client_id@,
            }),
            HandlerEvent::UpdateClient { client_id } => (EventView::UpdateClient {
                client_id: client_id@,
            }),
            HandlerEvent::OpenInitConnection { connection_id } => (EventView::OpenInitConnection {
                connection_id: connection_id@,
            }),
            HandlerEvent::OpenTryConnection { connection_id } => (EventView::OpenTryConnection {
                connection_id: connection_id@,
            }),
            HandlerEvent::OpenAckConnection { connection_id } => (EventView::OpenAckConnection {
                connection_id: connection_id@,
            }),
            HandlerEvent::OpenConfirmConnection { connection_id } => (
            EventView::OpenConfirmConnection { connection_id: connection_id@ }),
            HandlerEvent::OpenInitChannel { port_id, channel_id } => (EventView::OpenInitChannel {
                port_id: port_id@,
                channel_id: channel_id@,
            }),
            HandlerEvent::OpenTryChannel { port_id, channel_id } => (EventView::OpenTryChannel {
                port_id: port_id@,
                channel_id: channel_id@,
            }),
            HandlerEvent::OpenAckChannel { port_id, channel_id } => (EventView::OpenAckChannel {
                port_id: port_id@,
                channel_id: channel_id@,
            }),
            HandlerEvent::OpenConfirmChannel { port_id, channel_id } => (
            EventView::OpenConfirmChannel { port_id: port_id@, channel_id: channel_id@ }),
            HandlerEvent::CloseInitChannel { port_id, channel_id } => (EventView::CloseInitChannel {
                port_id: port_id@,
                channel_id: channel_id@,
            }),
            HandlerEvent::CloseConfirmChannel { port_id, channel_id } => (
            EventView::CloseConfirmChannel { port_id: port_id@, channel_id: channel_id@ }),
            HandlerEvent::SendPacket { packet } => (EventView::SendPacket { packet: packet@ }),
            HandlerEvent::ReceivePacket { packet } => (EventView::ReceivePacket {
                packet: packet@,
            }),
            HandlerEvent::WriteAcknowledgement { packet, ack } => (
            EventView::WriteAcknowledgement { packet: packet@, ack: ack@ }),
            HandlerEvent::AcknowledgePacket { packet } => (EventView::AcknowledgePacket {
                packet: packet@,
            }),
        }
    }
}

/// One raw ledger log: the emitting address, the block and transaction it
/// sits in, and the decoded handler event when decoding succeeded.
#[derive(Debug)]
pub struct RawLog {
    pub address: Vec<u8>,
    pub block_number: Option<u64>,
    pub tx_hash: Vec<u8>,
    pub event: Option<HandlerEvent>,
}

/// Spec-level image of `RawLog`.
pub struct LogView {
    pub address: Seq<u8>,
    pub block_number: Option<u64>,
    pub tx_hash: Seq<u8>,
    pub event: Option<EventView>,
}

impl View for RawLog {
    type V = LogView;

    open spec fn view(&self) -> LogView {
        LogView {
            address: self.address@,
            block_number: self.block_number,
            tx_hash: self.tx_hash@,
            event: match &self.event {
                Some(e) => Some(e@),
                None => None,
            },
        }
    }
}

/// A canonical protocol event together with the height and transaction
/// it came from.
#[derive(Debug)]
pub struct IbcEventWithHeight {
    pub event: HandlerEvent,
    pub height: Height,
    pub tx_hash: Vec<u8>,
}

/// Spec-level image of `IbcEventWithHeight`.
pub struct EventWithHeightView {
    pub event: EventView,
    pub height: Height,
    pub tx_hash: Seq<u8>,
}

impl View for IbcEventWithHeight {
    type V = EventWithHeightView;

    open spec fn view(&self) -> EventWithHeightView {
        EventWithHeightView { event: self.event@, height: self.height, tx_hash: self.tx_hash@ }
    }
}

/// The views of a list of raw logs.
pub open spec fn log_views(logs: Seq<RawLog>) -> Seq<LogView> {
    Seq::new(logs.len(), |i: int| logs[i]@)
}

/// The views of a list of events with heights.
pub open spec fn event_views(events: Seq<IbcEventWithHeight>) -> Seq<EventWithHeightView> {
    Seq::new(events.len(), |i: int| events[i]@)
}

/// Byte-for-byte equality of two byte strings.
pub fn bytes_eq(a: &Vec<u8>, b: &Vec<u8>) -> (r: bool)
    ensures
        r == (a@ == b@),
{
    if a.len() != b.len() {
        proof {
            assert(a@.len() != b@.len());
        }
        return false;
    }
    let mut i: usize = 0;
    while i < a.len()
        invariant
            0 <= i <= a@.len(),
            a@.len() == b@.len(),
            forall|k: int| 0 <= k < i ==> a@[k] == b@[k],
        decreases a@.len() - i,
    {
        if a[i] != b[i] {
            return false;
        }
        i = i + 1;
    }
    proof {
        assert(a@ =~= b@);
    }
    true
}

/// An owned copy of a byte string.
pub fn clone_bytes(v: &Vec<u8>) -> (r: Vec<u8>)
    ensures
        r@ == v@,
{
    let mut r: Vec<u8> = Vec::new();
    let mut i: usize = 0;
    while i < v.len()
        invariant
            0 <= i <= v@.len(),
            r@ == v@.take(i as int),
        decreases v@.len() - i,
    {
        r.push(v[i]);
        proof {
            assert(v@.take(i as int).push(v@[i as int]) =~= v@.take(i as int + 1));
        }
        i = i + 1;
    }
    proof {
        assert(v@.take(v@.len() as int) =~= v@);
    }
    r
}

impl Clone for PacketData {
    /// An owned copy with the same view.
    fn clone(&self) -> (res: Self)
        ensures
            res@ == self@,
    {
        PacketData {
            sequence: self.sequence,
            source_port: self.source_port.clone(),
            source_channel: self.source_channel.clone(),
            destination_port: self.destination_port.clone(),
            destination_channel: self.destination_channel.clone(),
        }
    }
}

impl Clone for HandlerEvent {
    /// An owned copy with the same view.
    fn clone(&self) -> (res: Self)
        ensures
            res@ == self@,
    {
        match self {
            HandlerEvent::CreateClient { client_id } => (HandlerEvent::CreateClient {
                client_id: client_id.clone(),
            }),
            HandlerEvent::UpdateClient { client_id } => (HandlerEvent::UpdateClient {
                client_id: client_id.clone(),
            }),
            HandlerEvent::OpenInitConnection { connection_id } => (
            HandlerEvent::OpenInitConnection { connection_id: connection_id.clone() }),
            HandlerEvent::OpenTryConnection { connection_id } => (HandlerEvent::OpenTryConnection {
                connection_id: connection_id.clone(),
            }),
            HandlerEvent::OpenAckConnection { connection_id } => (HandlerEvent::OpenAckConnection {
                connection_id: connection_id.clone(),
            }),
            HandlerEvent::OpenConfirmConnection { connection_id } => (
            HandlerEvent::OpenConfirmConnection { connection_id: connection_id.clone() }),
            HandlerEvent::OpenInitChannel { port_id, channel_id } => (
            HandlerEvent::OpenInitChannel {
                port_id: port_id.clone(),
                channel_id: channel_id.clone(),
            }),
            HandlerEvent::OpenTryChannel { port_id, channel_id } => (HandlerEvent::OpenTryChannel {
                port_id: port_id.clone(),
                channel_id: channel_id.clone(),
            }),
            HandlerEvent::OpenAckChannel { port_id, channel_id } => (HandlerEvent::OpenAckChannel {
                port_id: port_id.clone(),
                channel_id: channel_id.clone(),
            }),
            HandlerEvent::OpenConfirmChannel { port_id, channel_id } => (
            HandlerEvent::OpenConfirmChannel {
                port_id: port_id.clone(),
                channel_id: channel_id.clone(),
            }),
            HandlerEvent::CloseInitChannel { port_id, channel_id } => (
            HandlerEvent::CloseInitChannel {
                port_id: port_id.clone(),
                channel_id: channel_id.clone(),
            }),
            HandlerEvent::CloseConfirmChannel { port_id, channel_id } => (
            HandlerEvent::CloseConfirmChannel {
                port_id: port_id.clone(),
                channel_id: channel_id.clone(),
            }),
            HandlerEvent::SendPacket { packet } => (HandlerEvent::SendPacket {
                packet: packet.clone(),
            }),
            HandlerEvent::ReceivePacket { packet } => (HandlerEvent::ReceivePacket {
                packet: packet.clone(),
            }),
            HandlerEvent::WriteAcknowledgement { packet, ack } => (
            HandlerEvent::WriteAcknowledgement { packet: packet.clone(), ack: clone_bytes(ack) }),
            HandlerEvent::AcknowledgePacket { packet } => (HandlerEvent::AcknowledgePacket {
                packet: packet.clone(),
            }),
        }
    }
}

impl Clone for IbcEventWithHeight {
    /// An owned copy with the same view.
    fn clone(&self) -> (res: Self)
        ensures
            res@ == self@,
    {
        IbcEventWithHeight {
            event: self.event.clone(),
            height: self.height,
            tx_hash: clone_bytes(&self.tx_hash),
        }
    }
}

/// The view of a possibly absent event.
pub open spec fn opt_event_view(r: Option<IbcEventWithHeight>) -> Option<EventWithHeightView> {
    match r {
        Some(e) => Some(e@),
        None => None,
    }
}

/// What one raw record translates to: nothing unless the record was
/// emitted by the handler address, decoded to a known variant, and sits
/// in a block already; else the decoded event at that block's height.
pub open spec fn translate_log_spec(log: LogView, handler: Seq<u8>) -> Option<EventWithHeightView> {
    if log.address == handler {
        match log.event {
            Some(e) => match log.block_number {
                Some(n) => Some(
                    EventWithHeightView {
                        event: e,
                        height: Height { revision_number: 0, revision_height: n },
                        tx_hash: log.tx_hash,
                    },
                ),
                None => None,
            },
            None => None,
        }
    } else {
        None
    }
}

/// Translates one raw ledger record to at most one canonical event, as
/// `translate_log_spec` describes.
pub fn translate_log(log: &RawLog, handler: &Vec<u8>) -> (r: Option<IbcEventWithHeight>)
    ensures
        opt_event_view(r) == translate_log_spec(log@, handler@),
{
    if !bytes_eq(&log.address, handler) {
        return None;
    }
    match (&log.event, &log.block_number) {
        (Some(e), Some(n)) => Some(
            IbcEventWithHeight {
                event: e.clone(),
                height: Height::from_noncosmos_height(*n),
                tx_hash: clone_bytes(&log.tx_hash),
            },
        ),
        _ => None,
    }
}

/// A predicate over packet events: an empty sequence set means no
/// sequence restriction; every other field must match exactly.
#[derive(Debug)]
pub struct PacketFilter {
    pub sequences: Vec<u64>,
    pub source_port: String,
    pub source_channel: String,
    pub destination_port: String,
    pub destination_channel: String,
}

/// Spec-level image of `PacketFilter`.
pub struct FilterView {
    pub sequences: Seq<u64>,
    pub source_port: Seq<char>,
    pub source_channel: Seq<char>,
    pub destination_port: Seq<char>,
    pub destination_channel: Seq<char>,
}

impl View for PacketFilter {
    type V = FilterView;

    open spec fn view(&self) -> FilterView {
        FilterView {
            sequences: self.sequences@,
            source_port: self.source_port@,
            source_channel: self.source_channel@,
            destination_port: self.destination_port@,
            destination_channel: self.destination_channel@,
        }
    }
}

/// All supplied filter fields hold of the packet.
pub open spec fn packet_matches(f: FilterView, p: PacketView) -> bool {
    &&& (f.sequences.len() == 0 || f.sequences.contains(p.sequence))
    &&& p.source_port == f.source_port
    &&& p.source_channel == f.source_channel
    &&& p.destination_port == f.destination_port
    &&& p.destination_channel == f.destination_channel
}

/// Whether the filter accepts the packet, exactly as `packet_matches`
/// says.
pub fn packet_filter_accepts(f: &PacketFilter, p: &PacketData) -> (r: bool)
    ensures
        r == packet_matches(f@, p@),
{
    let mut seq_ok = f.sequences.len() == 0;
    let mut i: usize = 0;
    while i < f.sequences.len()
        invariant
            0 <= i <= f.sequences@.len(),
            seq_ok == (f.sequences@.len() == 0 || f.sequences@.take(i as int).contains(
                p.sequence,
            )),
        decreases f.sequences@.len() - i,
    {
        proof {
            assert(f.sequences@.take(i as int).push(f.sequences@[i as int]) =~= f.sequences@.take(
                i as int + 1,
            ));
        }
        if f.sequences[i] == p.sequence {
            seq_ok = true;
            proof {
                assert(f.sequences@.take(i as int + 1)[i as int] == p.sequence@);
            }
        } else {
            proof {
                if f.sequences@.take(i as int + 1).contains(p.sequence) {
                    let w = choose|w: int|
                        0 <= w < i + 1 && (#[trigger] f.sequences@.take(i as int + 1)[w])
                            == p.sequence;
                    if w < i {
                        assert(f.sequences@.take(i as int)[w] == p.sequence);
                    }
                }
            }
        }
        i = i + 1;
    }
    proof {
        assert(f.sequences@.take(f.sequences@.len() as int) =~= f.sequences@);
    }
    seq_ok && f.source_port == p.source_port && f.source_channel == p.source_channel
        && f.destination_port == p.destination_port && f.destination_channel
        == p.destination_channel
}

/// The event kinds a block-data query can ask for.
#[derive(Clone, Copy, Debug, PartialEq, Eq, Structural)]
pub enum WithBlockDataType {
    CreateClient,
    UpdateClient,
    SendPacket,
    WriteAck,
}

/// Whether an event is of the queried kind.
pub open spec fn event_has_kind(e: EventView, k: WithBlockDataType) -> bool {
    match k {
        WithBlockDataType::CreateClient => e is CreateClient,
        WithBlockDataType::UpdateClient => e is UpdateClient,
        WithBlockDataType::SendPacket => e is SendPacket,
        WithBlockDataType::WriteAck => e is WriteAcknowledgement,
    }
}

/// The packet an event carries, if it is packet-bearing.
pub open spec fn packet_of(e: EventView) -> Option<PacketView> {
    match e {
        EventView::SendPacket { packet } => Some(packet),
        EventView::ReceivePacket { packet } => Some(packet),
        EventView::WriteAcknowledgement { packet, .. } => Some(packet),
        EventView::AcknowledgePacket { packet } => Some(packet),
        _ => None,
    }
}

/// Whether a packet-event query keeps a translated event: the kind must
/// match, and for the packet-bearing kinds every supplied filter field
/// must hold.
pub open spec fn keep_for_packet_query(
    ev: EventWithHeightView,
    kind: WithBlockDataType,
    filter: FilterView,
) -> bool {
    &&& event_has_kind(ev.event, kind)
    &&& match kind {
        WithBlockDataType::SendPacket => packet_matches(filter, packet_of(ev.event)->0),
        WithBlockDataType::WriteAck => packet_matches(filter, packet_of(ev.event)->0),
        _ => true,
    }
}

/// The events a packet query yields from the records at index `i` on, in
/// record order.
pub open spec fn packet_events_from(
    logs: Seq<LogView>,
    handler: Seq<u8>,
    kind: WithBlockDataType,
    filter: FilterView,
    i: int,
) -> Seq<EventWithHeightView>
    decreases logs.len() - i,
{
    if !(0 <= i < logs.len()) {
        Seq::empty()
    } else {
        let rest = packet_events_from(logs, handler, kind, filter, i + 1);
        match translate_log_spec(logs[i], handler) {
            Some(ev) => if keep_for_packet_query(ev, kind, filter) {
                seq![ev] + rest
            } else {
                rest
            },
            None => rest,
        }
    }
}

/// The packet-event query core: translates each record and keeps those of
/// the queried kind that pass the filter, in record order.
pub fn filter_packet_events(
    logs: &Vec<RawLog>,
    handler: &Vec<u8>,
    kind: WithBlockDataType,
    filter: &PacketFilter,
) -> (r: Vec<IbcEventWithHeight>)
    ensures
        event_views(r@) == packet_events_from(log_views(logs@), handler@, kind, filter@, 0),
{
    let ghost lv = log_views(logs@);
    let mut out: Vec<IbcEventWithHeight> = Vec::new();
    let mut i: usize = 0;
    while i < logs.len()
        invariant
            0 <= i <= logs@.len(),
            lv == log_views(logs@),
            packet_events_from(lv, handler@, kind, filter@, 0) == event_views(out@)
                + packet_events_from(lv, handler@, kind, filter@, i as int),
        decreases logs@.len() - i,
    {
        let ghost out0 = out@;
        let translated = translate_log(&logs[i], handler);
        proof {
            assert(lv[i as int] == logs@[i as int]@);
        }
        match translated {
            Some(ev) => {
                let keep = match kind {
                    WithBlockDataType::CreateClient => matches!(ev.event, HandlerEvent::CreateClient { .. }),
                    WithBlockDataType::UpdateClient => matches!(ev.event, HandlerEvent::UpdateClient { .. }),
                    WithBlockDataType::SendPacket => match &ev.event {
                        HandlerEvent::SendPacket { packet } => packet_filter_accepts(
                            filter,
                            packet,
                        ),
                        _ => false,
                    },
                    WithBlockDataType::WriteAck => match &ev.event {
                        HandlerEvent::WriteAcknowledgement { packet, .. } => packet_filter_accepts(
                            filter,
                            packet,
                        ),
                        _ => false,
                    },
                };
                if keep {
                    out.push(ev);
                    proof {
                        assert(event_views(out@) =~= event_views(out0) + seq![out@.last()@]);
                        assert(packet_events_from(lv, handler@, kind, filter@, i as int) == seq![
                            out@.last()@,
                        ] + packet_events_from(lv, handler@, kind, filter@, i as int + 1));
                    }
                }
            },
            None => {
            },
        }
        i = i + 1;
    }
    proof {
        assert(event_views(out@) + packet_events_from(lv, handler@, kind, filter@, logs@.len() as int)
            =~= event_views(out@));
    }
    out
}

/// Every event a packet query returns is of the queried kind and, for
/// the packet-bearing kinds, satisfies every supplied filter field.
pub proof fn lemma_packet_events_filtered(
    logs: Seq<LogView>,
    handler: Seq<u8>,
    kind: WithBlockDataType,
    filter: FilterView,
    i: int,
)
    ensures
        forall|k: int|
            0 <= k < packet_events_from(logs, handler, kind, filter, i).len()
                ==> keep_for_packet_query(
                #[trigger] packet_events_from(logs, handler, kind, filter, i)[k],
                kind,
                filter,
            ),
    decreases logs.len() - i,
{
    if !(0 <= i < logs.len()) {
    } else {
        lemma_packet_events_filtered(logs, handler, kind, filter, i + 1);
        let rest = packet_events_from(logs, handler, kind, filter, i + 1);
        match translate_log_spec(logs[i], handler) {
            Some(ev) => {
                if keep_for_packet_query(ev, kind, filter) {
                    assert forall|k: int|
                        0 <= k < packet_events_from(logs, handler, kind, filter, i).len() implies
                        keep_for_packet_query(
                        #[trigger] packet_events_from(logs, handler, kind, filter, i)[k],
                        kind,
                        filter,
                    ) by {
                        if k > 0 {
                            assert(packet_events_from(logs, handler, kind, filter, i)[k] == rest[k
                                - 1]);
                        }
                    }
                }
            },
            None => {
            },
        }
    }
}

/// The first update-client event for the requested client id among the
/// records at index `i` on; at most one is ever reported.
pub open spec fn client_update_from(
    logs: Seq<LogView>,
    handler: Seq<u8>,
    client_id: Seq<char>,
    i: int,
) -> Option<EventWithHeightView>
    decreases logs.len() - i,
{
    if !(0 <= i < logs.len()) {
        None
    } else {
        match translate_log_spec(logs[i], handler) {
            Some(ev) => if ev.event matches EventView::UpdateClient { client_id: c } && c
                == client_id {
                Some(ev)
            } else {
                client_update_from(logs, handler, client_id, i + 1)
            },
            None => client_update_from(logs, handler, client_id, i + 1),
        }
    }
}

/// The client-event query core: at most one update-client event comes
/// back, the first whose reported client id equals the requested one.
pub fn find_client_update(logs: &Vec<RawLog>, handler: &Vec<u8>, client_id: &String) -> (r: Option<
    IbcEventWithHeight,
>)
    ensures
        opt_event_view(r) == client_update_from(log_views(logs@), handler@, client_id@, 0),
        r matches Some(ev) ==> ev.event@ matches EventView::UpdateClient { client_id: c } && c
            == client_id@,
{
    let ghost lv = log_views(logs@);
    let mut i: usize = 0;
    while i < logs.len()
        invariant
            0 <= i <= logs@.len(),
            lv == log_views(logs@),
            client_update_from(lv, handler@, client_id@, 0) == client_update_from(
                lv,
                handler@,
                client_id@,
                i as int,
            ),
        decreases logs@.len() - i,
    {
        proof {
            assert(lv[i as int] == logs@[i as int]@);
        }
        let translated = translate_log(&logs[i], handler);
        match translated {
            Some(ev) => {
                let matched = match &ev.event {
                    HandlerEvent::UpdateClient { client_id: c } => *c == *client_id,
                    _ => false,
                };
                if matched {
                    proof {
                        assert(translate_log_spec(lv[i as int], handler@) == Some(ev@));
                        assert(client_update_from(lv, handler@, client_id@, i as int) == Some(
                            ev@,
                        ));
                    }
                    return Some(ev);
                }
                proof {
                    assert(client_update_from(lv, handler@, client_id@, i as int)
                        == client_update_from(lv, handler@, client_id@, i as int + 1));
                }
            },
            None => {
            },
        }
        i = i + 1;
    }
    None
}

/// The canonical events in a transaction's records, every record pinned
/// to the given block number and transaction hash; a record that decoded
/// to no known variant contributes nothing.
pub open spec fn tx_log_events_from(
    logs: Seq<LogView>,
    block_number: u64,
    tx_hash: Seq<u8>,
    i: int,
) -> Seq<EventWithHeightView>
    decreases logs.len() - i,
{
    if !(0 <= i < logs.len()) {
        Seq::empty()
    } else {
        let rest = tx_log_events_from(logs, block_number, tx_hash, i + 1);
        match logs[i].event {
            Some(e) => seq![
                EventWithHeightView {
                    event: e,
                    height: Height { revision_number: 0, revision_height: block_number },
                    tx_hash: tx_hash,
                },
            ] + rest,
            None => rest,
        }
    }
}

/// Collects every canonical event from the decoded records of one
/// transaction, all at the transaction's block height and hash.
pub fn fetch_all_ibc_events_from_tx_logs(
    block_number: u64,
    tx_hash: &Vec<u8>,
    logs: &Vec<RawLog>,
) -> (r: Result<Vec<IbcEventWithHeight>, Error>)
    ensures
        r is Ok,
        r matches Ok(events) ==> event_views(events@) == tx_log_events_from(
            log_views(logs@),
            block_number,
            tx_hash@,
            0,
        ),
{
    let ghost lv = log_views(logs@);
    let mut out: Vec<IbcEventWithHeight> = Vec::new();
    let mut i: usize = 0;
    while i < logs.len()
        invariant
            0 <= i <= logs@.len(),
            lv == log_views(logs@),
            tx_log_events_from(lv, block_number, tx_hash@, 0) == event_views(out@)
                + tx_log_events_from(lv, block_number, tx_hash@, i as int),
        decreases logs@.len() - i,
    {
        let ghost out0 = out@;
        proof {
            assert(lv[i as int] == logs@[i as int]@);
        }
        match &logs[i].event {
            Some(e) => {
                let ev = IbcEventWithHeight {
                    event: e.clone(),
                    height: Height::from_noncosmos_height(block_number),
                    tx_hash: clone_bytes(tx_hash),
                };
                out.push(ev);
                proof {
                    assert(event_views(out@) =~= event_views(out0) + seq![out@.last()@]);
                    assert(tx_log_events_from(lv, block_number, tx_hash@, i as int) == seq![
                        out@.last()@,
                    ] + tx_log_events_from(lv, block_number, tx_hash@, i as int + 1));
                }
            },
            None => {
            },
        }
        i = i + 1;
    }
    proof {
        assert(event_views(out@) + tx_log_events_from(lv, block_number, tx_hash@, logs@.len() as int)
            =~= event_views(out@));
    }
    Ok(out)
}


/// The short name of an event's kind, as the transaction-check report
/// spells it.
pub open spec fn event_label(e: EventView) -> Seq<char> {
    match e {
        EventView::CreateClient { .. } => "create client"@,
        EventView::UpdateClient { .. } => "update client"@,
        EventView::OpenInitConnection { .. } => "connection open init"@,
        EventView::OpenTryConnection { .. } => "connection open try"@,
        EventView::OpenAckConnection { .. } => "connection open ack"@,
        EventView::OpenConfirmConnection { .. } => "connection open confirm"@,
        EventView::OpenInitChannel { .. } => "channel open init"@,
        EventView::OpenTryChannel { .. } => "channel open try"@,
        EventView::OpenAckChannel { .. } => "channel open ack"@,
        EventView::OpenConfirmChannel { .. } => "channel open confirm"@,
        EventView::CloseInitChannel { .. } => "channel close init"@,
        EventView::CloseConfirmChannel { .. } => "channel close confirm"@,
        EventView::SendPacket { .. } => "send packet"@,
        EventView::ReceivePacket { .. } => "receive packet"@,
        EventView::WriteAcknowledgement { .. } => "write acknowledgement"@,
        EventView::AcknowledgePacket { .. } => "acknowledge packet"@,
    }
}

impl HandlerEvent {
    /// The short name of this event's kind.
    pub fn label(&self) -> (r: &'static str)
        ensures
            r@ == event_label(self@),
    {
        match self {
            HandlerEvent::CreateClient { .. } => "create client",
            HandlerEvent::UpdateClient { .. } => "update client",
            HandlerEvent::OpenInitConnection { .. } => "connection open init",
            HandlerEvent::OpenTryConnection { .. } => "connection open try",
            HandlerEvent::OpenAckConnection { .. } => "connection open ack",
            HandlerEvent::OpenConfirmConnection { .. } => "connection open confirm",
            HandlerEvent::OpenInitChannel { .. } => "channel open init",
            HandlerEvent::OpenTryChannel { .. } => "channel open try",
            HandlerEvent::OpenAckChannel { .. } => "channel open ack",
            HandlerEvent::OpenConfirmChannel { .. } => "channel open confirm",
            HandlerEvent::CloseInitChannel { .. } => "channel close init",
            HandlerEvent::CloseConfirmChannel { .. } => "channel close confirm",
            HandlerEvent::SendPacket { .. } => "send packet",
            HandlerEvent::ReceivePacket { .. } => "receive packet",
            HandlerEvent::WriteAcknowledgement { .. } => "write acknowledgement",
            HandlerEvent::AcknowledgePacket { .. } => "acknowledge packet",
        }
    }
}


/// Whether one record would contribute a kept event to a packet query.
pub open spec fn log_yields_kept(
    l: LogView,
    handler: Seq<u8>,
    kind: WithBlockDataType,
    filter: FilterView,
) -> bool {
    match translate_log_spec(l, handler) {
        Some(ev) => keep_for_packet_query(ev, kind, filter),
        None => false,
    }
}

/// The sequence of the packet a record carries for a kind, if its
/// decoded event is of that kind and packet-bearing.
pub open spec fn log_packet_seq(l: LogView, kind: WithBlockDataType) -> Option<u64> {
    match l.event {
        Some(e) => if event_has_kind(e, kind) {
            match packet_of(e) {
                Some(p) => Some(p.sequence),
                None => None,
            }
        } else {
            None
        },
        None => None,
    }
}

proof fn lemma_packet_events_empty(
    logs: Seq<LogView>,
    handler: Seq<u8>,
    kind: WithBlockDataType,
    filter: FilterView,
    i: int,
)
    requires
        forall|j: int|
            i <= j < logs.len() ==> !log_yields_kept(#[trigger] logs[j], handler, kind, filter),
    ensures
        packet_events_from(logs, handler, kind, filter, i).len() == 0,
    decreases logs.len() - i,
{
    if 0 <= i < logs.len() {
        lemma_packet_events_empty(logs, handler, kind, filter, i + 1);
    }
}

proof fn lemma_packet_events_at_most_one_from(
    logs: Seq<LogView>,
    handler: Seq<u8>,
    kind: WithBlockDataType,
    filter: FilterView,
    i: int,
)
    requires
        kind is SendPacket || kind is WriteAck,
        filter.sequences.len() == 1,
        forall|a: int, b: int|
            0 <= a < b < logs.len() ==> !((#[trigger] log_packet_seq(logs[a], kind)) is Some && (
            #[trigger] log_packet_seq(logs[b], kind)) == log_packet_seq(logs[a], kind)),
    ensures
        packet_events_from(logs, handler, kind, filter, i).len() <= 1,
    decreases logs.len() - i,
{
    if !(0 <= i < logs.len()) {
    } else {
        lemma_packet_events_at_most_one_from(logs, handler, kind, filter, i + 1);
        match translate_log_spec(logs[i], handler) {
            Some(ev) => {
                if keep_for_packet_query(ev, kind, filter) {
                    assert forall|j: int|
                        i + 1 <= j < logs.len() implies !log_yields_kept(
                        #[trigger] logs[j],
                        handler,
                        kind,
                        filter,
                    ) by {
                        if log_yields_kept(logs[j], handler, kind, filter) {
                            let evj = translate_log_spec(logs[j], handler)->0;
                            let s0 = filter.sequences[0];
                            assert(packet_matches(filter, packet_of(evj.event)->0));
                            assert(packet_of(evj.event)->0.sequence == s0) by {
                                let w = choose|w: int|
                                    0 <= w < filter.sequences.len() && filter.sequences[w]
                                        == packet_of(evj.event)->0.sequence;
                                assert(w == 0);
                            }
                            assert(log_packet_seq(logs[j], kind) == Some(s0));
                            assert(packet_matches(filter, packet_of(ev.event)->0));
                            assert(packet_of(ev.event)->0.sequence == s0) by {
                                let w = choose|w: int|
                                    0 <= w < filter.sequences.len() && filter.sequences[w]
                                        == packet_of(ev.event)->0.sequence;
                                assert(w == 0);
                            }
                            assert(log_packet_seq(logs[i], kind) == Some(s0));
                            assert(false);
                        }
                    }
                    lemma_packet_events_empty(logs, handler, kind, filter, i + 1);
                }
            },
            None => {
            },
        }
    }
}

/// With a packet filter naming exactly one sequence, over records that
/// never repeat a (kind, sequence) pair, a packet query returns at most
/// one event.
pub proof fn lemma_packet_events_at_most_one(
    logs: Seq<LogView>,
    handler: Seq<u8>,
    kind: WithBlockDataType,
    filter: FilterView,
)
    requires
        kind is SendPacket || kind is WriteAck,
        filter.sequences.len() == 1,
        forall|a: int, b: int|
            0 <= a < b < logs.len() ==> !((#[trigger] log_packet_seq(logs[a], kind)) is Some && (
            #[trigger] log_packet_seq(logs[b], kind)) == log_packet_seq(logs[a], kind)),
    ensures
        packet_events_from(logs, handler, kind, filter, 0).len() <= 1,
{
    lemma_packet_events_at_most_one_from(logs, handler, kind, filter, 0);
}


/// The canonical events among the records at index `i` on, each at its
/// own record's block height; records from other addresses, without a
/// block, or without a known variant contribute nothing.
pub open spec fn translated_from(logs: Seq<LogView>, handler: Seq<u8>, i: int) -> Seq<
    EventWithHeightView,
>
    decreases logs.len() - i,
{
    if !(0 <= i < logs.len()) {
        Seq::empty()
    } else {
        let rest = translated_from(logs, handler, i + 1);
        match translate_log_spec(logs[i], handler) {
            Some(ev) => seq![ev] + rest,
            None => rest,
        }
    }
}

/// Translates every record of one transaction's receipt that the
/// handler emitted, in record order: the transaction-scoped event
/// query.
pub fn events_from_receipt_logs(logs: &Vec<RawLog>, handler: &Vec<u8>) -> (r: Vec<
    IbcEventWithHeight,
>)
    ensures
        event_views(r@) == translated_from(log_views(logs@), handler@, 0),
{
    let ghost lv = log_views(logs@);
    let mut out: Vec<IbcEventWithHeight> = Vec::new();
    let mut i: usize = 0;
    while i < logs.len()
        invariant
            0 <= i <= logs@.len(),
            lv == log_views(logs@),
            translated_from(lv, handler@, 0) == event_views(out@) + translated_from(
                lv,
                handler@,
                i as int,
            ),
        decreases logs@.len() - i,
    {
        let ghost out0 = out@;
        proof {
            assert(lv[i as int] == logs@[i as int]@);
        }
        match translate_log(&logs[i], handler) {
            Some(ev) => {
                out.push(ev);
                proof {
                    assert(event_views(out@) =~= event_views(out0) + seq![out@.last()@]);
                    assert(translated_from(lv, handler@, i as int) == seq![out@.last()@]
                        + translated_from(lv, handler@, i as int + 1));
                }
            },
            None => {
            },
        }
        i = i + 1;
    }
    proof {
        assert(event_views(out@) + translated_from(lv, handler@, logs@.len() as int)
            =~= event_views(out@));
    }
    out
}

} // verus!
