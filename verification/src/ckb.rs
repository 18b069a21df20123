//! The transaction builder for the cell-based ledger: a generic
//! protocol message becomes an unsigned transaction skeleton against
//! cached on-chain cells, plus an envelope naming the protocol step it
//! performs.  The builder does no I/O of its own: every existing-cell
//! lookup comes from the passed-in context, and a context inconsistent
//! with the message's identifiers fails with the stale-context error.

use vstd::prelude::*;
use crate::dispatch::{url_kind_spec, msg_kind_of_url, MsgKind};
use crate::error::Error;
use crate::events::HandlerEvent;

verus! {

/// A reference to an existing cell: the transaction that produced it
/// and the output's position in it.
#[derive(Clone, Copy, Debug, PartialEq, Eq)]
pub struct OutPoint {
    pub tx_hash: [u8; 32],
    pub index: u32,
}

/// A consumed cell: its outpoint and the transaction's since field.
#[derive(Clone, Copy, Debug, PartialEq, Eq)]
pub struct CellInput {
    pub previous_output: OutPoint,
    pub since: u64,
}

/// The cached on-chain state of one channel cell: its stored payload
/// and the capacity the cell holds.
#[derive(Debug)]
pub struct IbcChannel {
    pub payload: Vec<u8>,
    pub capacity: u64,
}

impl Clone for IbcChannel {
    /// An owned copy with the same payload and capacity.
    fn clone(&self) -> (res: Self)
        ensures
            res.payload@ == self.payload@,
            res.capacity == self.capacity,
    {
        IbcChannel {
            payload: crate::events::clone_bytes(&self.payload),
            capacity: self.capacity,
        }
    }
}

/// The cached on-chain state of the connections cell: its stored
/// payload and the capacity the cell holds.
#[derive(Debug)]
pub struct IbcConnections {
    pub payload: Vec<u8>,
    pub capacity: u64,
}

impl Clone for IbcConnections {
    /// An owned copy with the same payload and capacity.
    fn clone(&self) -> (res: Self)
        ensures
            res.payload@ == self.payload@,
            res.capacity == self.capacity,
    {
        IbcConnections {
            payload: crate::events::clone_bytes(&self.payload),
            capacity: self.capacity,
        }
    }
}

/// The index of the first channel-cache entry for a channel id, if any.
pub open spec fn channel_cache_index(
    entries: Seq<(String, IbcChannel)>,
    channel_id: Seq<char>,
    i: int,
) -> Option<int>
    decreases entries.len() - i,
{
    if !(0 <= i < entries.len()) {
        None
    } else if entries[i].0@ == channel_id {
        Some(i)
    } else {
        channel_cache_index(entries, channel_id, i + 1)
    }
}

/// The first cached cell input for a (channel, port) pair, if any.
pub open spec fn channel_input_lookup(
    entries: Seq<((String, String), CellInput)>,
    channel_id: Seq<char>,
    port_id: Seq<char>,
    i: int,
) -> Option<CellInput>
    decreases entries.len() - i,
{
    if !(0 <= i < entries.len()) {
        None
    } else if entries[i].0.0@ == channel_id && entries[i].0.1@ == port_id {
        Some(entries[i].1)
    } else {
        channel_input_lookup(entries, channel_id, port_id, i + 1)
    }
}

/// The first cached packet cell for a (channel, port, sequence) triple,
/// if any: its input and the capacity the cell holds.
pub open spec fn packet_input_lookup(
    entries: Seq<((String, String, u64), (CellInput, u64))>,
    channel_id: Seq<char>,
    port_id: Seq<char>,
    sequence: u64,
    i: int,
) -> Option<(CellInput, u64)>
    decreases entries.len() - i,
{
    if !(0 <= i < entries.len()) {
        None
    } else if entries[i].0.0@ == channel_id && entries[i].0.1@ == port_id && entries[i].0.2
        == sequence {
        Some(entries[i].1)
    } else {
        packet_input_lookup(entries, channel_id, port_id, sequence, i + 1)
    }
}

/// The shared lookup context a message is converted against.  Every
/// getter answers from these caches alone; the caches are filled by an
/// external refresh collaborator and must already be consistent with
/// the identifiers the message references.
pub struct Converter {
    pub channel_input_data: Vec<((String, String), CellInput)>,
    pub channel_cache: Vec<(String, IbcChannel)>,
    pub connection_cache: Option<(IbcConnections, CellInput)>,
    pub packet_input_data: Vec<((String, String, u64), (CellInput, u64))>,
    pub client_id: String,
    pub client_id_bytes: [u8; 32],
    pub client_outpoint: OutPoint,
    pub chan_contract_outpoint: OutPoint,
    pub packet_contract_outpoint: OutPoint,
    pub conn_contract_outpoint: OutPoint,
    pub packet_owner: [u8; 32],
    pub channel_code_hash: [u8; 32],
    pub packet_code_hash: [u8; 32],
    pub connection_code_hash: [u8; 32],
}

/// What a conversion context must answer: the cached connection and
/// channel cells and their inputs, the script outpoints and code
/// hashes, and the relayer's own identity.  A lookup that the cache
/// cannot answer is a stale context.
pub trait MsgToTxConverter {
    /// The cached connections cell (payload and capacity) and its
    /// input, if the cache holds one.
    spec fn spec_connection(&self) -> Option<(Seq<u8>, u64, CellInput)>;

    /// The cached channel cells, keyed by channel id.
    spec fn spec_channel_cache(&self) -> Seq<(String, IbcChannel)>;

    /// The cached channel cell inputs, keyed by (channel, port).
    spec fn spec_channel_inputs(&self) -> Seq<((String, String), CellInput)>;

    /// The cached packet cells, keyed by (channel, port, sequence):
    /// each entry's input and the capacity the cell holds.
    spec fn spec_packet_inputs(&self) -> Seq<((String, String, u64), (CellInput, u64))>;

    /// The relayer's client id.
    spec fn spec_client_id(&self) -> Seq<char>;

    /// The relayer's client id as its 32-byte form.
    spec fn spec_client_id_bytes(&self) -> Seq<u8>;

    /// The outpoints of the client cell and the three contract cells.
    spec fn spec_client_outpoint(&self) -> OutPoint;

    spec fn spec_conn_contract_outpoint(&self) -> OutPoint;

    spec fn spec_chan_contract_outpoint(&self) -> OutPoint;

    spec fn spec_packet_contract_outpoint(&self) -> OutPoint;

    /// The code hashes of the three scripts.
    spec fn spec_channel_code_hash(&self) -> Seq<u8>;

    spec fn spec_packet_code_hash(&self) -> Seq<u8>;

    spec fn spec_connection_code_hash(&self) -> Seq<u8>;

    /// The packet cells' owner.
    spec fn spec_packet_owner(&self) -> Seq<u8>;

    fn get_ibc_connections(&self) -> (r: Result<IbcConnections, Error>)
        ensures
            (match self.spec_connection() {
                Some(p) => r matches Ok(c) && c.payload@ == p.0 && c.capacity == p.1,
                None => r matches Err(e) && e is StaleContext,
            }),
    ;

    fn get_ibc_connections_input(&self) -> (r: Result<CellInput, Error>)
        ensures
            (match self.spec_connection() {
                Some(p) => r == Ok::<CellInput, Error>(p.2),
                None => r matches Err(e) && e is StaleContext,
            }),
    ;

    fn get_ibc_channel(&self, channel_id: &str) -> (r: Result<IbcChannel, Error>)
        ensures
            (match channel_cache_index(self.spec_channel_cache(), channel_id@, 0) {
                Some(j) => r matches Ok(c) && c.payload@ == self.spec_channel_cache()[j].1.payload@
                    && c.capacity == self.spec_channel_cache()[j].1.capacity,
                None => r matches Err(e) && e is StaleContext,
            }),
    ;

    fn get_ibc_channel_input(&self, channel_id: &str, port_id: &str) -> (r: Result<
        CellInput,
        Error,
    >)
        ensures
            (match channel_input_lookup(self.spec_channel_inputs(), channel_id@, port_id@, 0) {
                Some(input) => r == Ok::<CellInput, Error>(input),
                None => r matches Err(e) && e is StaleContext,
            }),
    ;

    fn get_packet_cell_input(&self, channel_id: &str, port_id: &str, sequence: u64) -> (r: Result<
        (CellInput, u64),
        Error,
    >)
        ensures
            (match packet_input_lookup(
                self.spec_packet_inputs(),
                channel_id@,
                port_id@,
                sequence,
                0,
            ) {
                Some(cell) => r == Ok::<(CellInput, u64), Error>(cell),
                None => r matches Err(e) && e is StaleContext,
            }),
    ;

    fn get_client_outpoint(&self) -> (r: OutPoint)
        ensures
            r == self.spec_client_outpoint(),
    ;

    fn get_conn_contract_outpoint(&self) -> (r: OutPoint)
        ensures
            r == self.spec_conn_contract_outpoint(),
    ;

    fn get_chan_contract_outpoint(&self) -> (r: OutPoint)
        ensures
            r == self.spec_chan_contract_outpoint(),
    ;

    fn get_packet_contract_outpoint(&self) -> (r: OutPoint)
        ensures
            r == self.spec_packet_contract_outpoint(),
    ;

    fn get_channel_code_hash(&self) -> (r: [u8; 32])
        ensures
            r@ == self.spec_channel_code_hash(),
    ;

    fn get_packet_code_hash(&self) -> (r: [u8; 32])
        ensures
            r@ == self.spec_packet_code_hash(),
    ;

    fn get_connection_code_hash(&self) -> (r: [u8; 32])
        ensures
            r@ == self.spec_connection_code_hash(),
    ;

    fn get_client_id(&self) -> (r: String)
        ensures
            r@ == self.spec_client_id(),
    ;

    fn get_client_id_bytes(&self) -> (r: [u8; 32])
        ensures
            r@ == self.spec_client_id_bytes(),
    ;

    fn get_packet_owner(&self) -> (r: [u8; 32])
        ensures
            r@ == self.spec_packet_owner(),
    ;
}

impl MsgToTxConverter for Converter {
    open spec fn spec_connection(&self) -> Option<(Seq<u8>, u64, CellInput)> {
        match self.connection_cache {
            Some(p) => Some((p.0.payload@, p.0.capacity, p.1)),
            None => None,
        }
    }

    open spec fn spec_channel_cache(&self) -> Seq<(String, IbcChannel)> {
        self.channel_cache@
    }

    open spec fn spec_channel_inputs(&self) -> Seq<((String, String), CellInput)> {
        self.channel_input_data@
    }

    open spec fn spec_packet_inputs(&self) -> Seq<((String, String, u64), (CellInput, u64))> {
        self.packet_input_data@
    }

    open spec fn spec_client_id(&self) -> Seq<char> {
        self.client_id@
    }

    open spec fn spec_client_id_bytes(&self) -> Seq<u8> {
        self.client_id_bytes@
    }

    open spec fn spec_client_outpoint(&self) -> OutPoint {
        self.client_outpoint
    }

    open spec fn spec_conn_contract_outpoint(&self) -> OutPoint {
        self.conn_contract_outpoint
    }

    open spec fn spec_chan_contract_outpoint(&self) -> OutPoint {
        self.chan_contract_outpoint
    }

    open spec fn spec_packet_contract_outpoint(&self) -> OutPoint {
        self.packet_contract_outpoint
    }

    open spec fn spec_channel_code_hash(&self) -> Seq<u8> {
        self.channel_code_hash@
    }

    open spec fn spec_packet_code_hash(&self) -> Seq<u8> {
        self.packet_code_hash@
    }

    open spec fn spec_connection_code_hash(&self) -> Seq<u8> {
        self.connection_code_hash@
    }

    open spec fn spec_packet_owner(&self) -> Seq<u8> {
        self.packet_owner@
    }

    fn get_ibc_connections(&self) -> (r: Result<IbcConnections, Error>) {
        match &self.connection_cache {
            Some(p) => Ok(p.0.clone()),
            None => Err(Error::StaleContext),
        }
    }

    fn get_ibc_connections_input(&self) -> (r: Result<CellInput, Error>) {
        match &self.connection_cache {
            Some(p) => Ok(p.1),
            None => Err(Error::StaleContext),
        }
    }

    fn get_ibc_channel(&self, channel_id: &str) -> (r: Result<IbcChannel, Error>) {
        let mut i: usize = 0;
        while i < self.channel_cache.len()
            invariant
                0 <= i <= self.channel_cache@.len(),
                channel_cache_index(self.channel_cache@, channel_id@, 0) == channel_cache_index(
                    self.channel_cache@,
                    channel_id@,
                    i as int,
                ),
            decreases self.channel_cache@.len() - i,
        {
            if crate::dispatch::str_eq(self.channel_cache[i].0.as_str(), channel_id) {
                return Ok(self.channel_cache[i].1.clone());
            }
            i = i + 1;
        }
        Err(Error::StaleContext)
    }

    fn get_ibc_channel_input(&self, channel_id: &str, port_id: &str) -> (r: Result<
        CellInput,
        Error,
    >) {
        let mut i: usize = 0;
        while i < self.channel_input_data.len()
            invariant
                0 <= i <= self.channel_input_data@.len(),
                channel_input_lookup(self.channel_input_data@, channel_id@, port_id@, 0)
                    == channel_input_lookup(
                    self.channel_input_data@,
                    channel_id@,
                    port_id@,
                    i as int,
                ),
            decreases self.channel_input_data@.len() - i,
        {
            let hit = crate::dispatch::str_eq(self.channel_input_data[i].0.0.as_str(), channel_id)
                && crate::dispatch::str_eq(self.channel_input_data[i].0.1.as_str(), port_id);
            if hit {
                return Ok(self.channel_input_data[i].1);
            }
            i = i + 1;
        }
        Err(Error::StaleContext)
    }

    fn get_packet_cell_input(&self, channel_id: &str, port_id: &str, sequence: u64) -> (r: Result<
        (CellInput, u64),
        Error,
    >) {
        let mut i: usize = 0;
        while i < self.packet_input_data.len()
            invariant
                0 <= i <= self.packet_input_data@.len(),
                packet_input_lookup(self.packet_input_data@, channel_id@, port_id@, sequence, 0)
                    == packet_input_lookup(
                    self.packet_input_data@,
                    channel_id@,
                    port_id@,
                    sequence,
                    i as int,
                ),
            decreases self.packet_input_data@.len() - i,
        {
            let hit = crate::dispatch::str_eq(self.packet_input_data[i].0.0.as_str(), channel_id)
                && crate::dispatch::str_eq(self.packet_input_data[i].0.1.as_str(), port_id)
                && self.packet_input_data[i].0.2 == sequence;
            if hit {
                return Ok(self.packet_input_data[i].1);
            }
            i = i + 1;
        }
        Err(Error::StaleContext)
    }

    fn get_client_outpoint(&self) -> (r: OutPoint) {
        self.client_outpoint
    }

    fn get_conn_contract_outpoint(&self) -> (r: OutPoint) {
        self.conn_contract_outpoint
    }

    fn get_chan_contract_outpoint(&self) -> (r: OutPoint) {
        self.chan_contract_outpoint
    }

    fn get_packet_contract_outpoint(&self) -> (r: OutPoint) {
        self.packet_contract_outpoint
    }

    fn get_channel_code_hash(&self) -> (r: [u8; 32]) {
        self.channel_code_hash
    }

    fn get_packet_code_hash(&self) -> (r: [u8; 32]) {
        self.packet_code_hash
    }

    fn get_connection_code_hash(&self) -> (r: [u8; 32]) {
        self.connection_code_hash
    }

    fn get_client_id(&self) -> (r: String) {
        self.client_id.clone()
    }

    fn get_client_id_bytes(&self) -> (r: [u8; 32]) {
        self.client_id_bytes
    }

    fn get_packet_owner(&self) -> (r: [u8; 32]) {
        self.packet_owner
    }
}

/// The identifiers a message references, taken from its decoded body:
/// which channel, port and packet sequence the ledger cells are looked
/// up under.  Kinds that reference no channel ignore them.
#[derive(Debug)]
pub struct MsgAddress {
    pub channel_id: String,
    pub port_id: String,
    pub sequence: u64,
}

/// The witness envelope of a cell transaction: which protocol step it
/// performs and the encoded message it carries.
#[derive(Debug)]
pub struct Envelope {
    pub msg_type: MsgKind,
    pub content: Vec<u8>,
}

/// An unsigned transaction skeleton: the cells it consumes and the
/// cells it refers to as dependencies.  The relayer's own fee input and
/// the rebuilt output cells are added by the signer stage that owns the
/// cell data.
#[derive(Debug)]
pub struct TxSkeleton {
    pub inputs: Vec<CellInput>,
    pub cell_deps: Vec<OutPoint>,
}

/// What converting one message yields: the skeleton (none for the
/// client steps, which build no cell transaction here), the envelope,
/// the capacity of the consumed protocol cells, and the canonical event
/// already known at build time, if this step synthesizes one locally.
#[derive(Debug)]
pub struct CkbTxInfo {
    pub unsigned_tx: Option<TxSkeleton>,
    pub envelope: Envelope,
    pub input_capacity: u64,
    pub event: Option<HandlerEvent>,
}

/// Builds the two-element dependency list used by the cell
/// transactions: the governing contract cell and the client cell.
fn deps2(a: OutPoint, b: OutPoint) -> (r: Vec<OutPoint>)
    ensures
        r@ == seq![a, b],
{
    let mut v: Vec<OutPoint> = Vec::new();
    v.push(a);
    v.push(b);
    proof {
        assert(v@ =~= seq![a, b]);
    }
    v
}

/// Builds the three-element dependency list used by the packet
/// transactions.
fn deps3(a: OutPoint, b: OutPoint, c: OutPoint) -> (r: Vec<OutPoint>)
    ensures
        r@ == seq![a, b, c],
{
    let mut v: Vec<OutPoint> = Vec::new();
    v.push(a);
    v.push(b);
    v.push(c);
    proof {
        assert(v@ =~= seq![a, b, c]);
    }
    v
}

fn inputs1(a: CellInput) -> (r: Vec<CellInput>)
    ensures
        r@ == seq![a],
{
    let mut v: Vec<CellInput> = Vec::new();
    v.push(a);
    proof {
        assert(v@ =~= seq![a]);
    }
    v
}

fn inputs2(a: CellInput, b: CellInput) -> (r: Vec<CellInput>)
    ensures
        r@ == seq![a, b],
{
    let mut v: Vec<CellInput> = Vec::new();
    v.push(a);
    v.push(b);
    proof {
        assert(v@ =~= seq![a, b]);
    }
    v
}

/// Converts one generic protocol message into an unsigned cell
/// transaction skeleton, dispatching on its type tag.
///
/// The client steps build no transaction here: creating a client
/// synthesizes its canonical event locally, updating one is the client
/// cell collaborator's work.  The connection steps and the two channel
/// opening steps consume the connections cell; the remaining channel
/// steps consume the channel's own cell; receiving a packet consumes
/// the channel cell, and acknowledging one consumes the channel cell
/// and the packet cell being acknowledged, with the reported input
/// capacity totalling both cells.  A message whose cells the
/// context cannot answer fails with the stale-context error; a type
/// tag without a conversion on this ledger — timeouts and the channel
/// close confirmation among them — fails as unsupported.
pub fn convert_msg_to_ckb_tx<C: MsgToTxConverter>(
    type_url: &str,
    address: &MsgAddress,
    content: Vec<u8>,
    converter: &C,
) -> (r: Result<CkbTxInfo, Error>)
    ensures
        (match url_kind_spec(type_url@) {
            None => r matches Err(e) && e is UnsupportedMessageType,
            Some(kind) => match kind {
                MsgKind::Timeout => r matches Err(e) && e is UnsupportedMessageType,
                MsgKind::ChanCloseConfirm => r matches Err(e) && e is UnsupportedMessageType,
                MsgKind::CreateClient => r matches Ok(info) && info.unsigned_tx is None
                    && info.envelope.msg_type == kind && info.envelope.content@ == content@
                    && info.input_capacity == 0 && (info.event matches Some(ev) && ev@
                    == (crate::events::EventView::CreateClient {
                    client_id: converter.spec_client_id(),
                })),
                MsgKind::UpdateClient => r matches Ok(info) && info.unsigned_tx is None
                    && info.envelope.msg_type == kind && info.envelope.content@ == content@
                    && info.input_capacity == 0 && info.event is None,
                MsgKind::ConnOpenInit | MsgKind::ConnOpenTry | MsgKind::ConnOpenAck
                    | MsgKind::ConnOpenConfirm | MsgKind::ChanOpenInit | MsgKind::ChanOpenTry => (
                match converter.spec_connection() {
                    Some(p) => r matches Ok(info) && (info.unsigned_tx matches Some(tx)
                        && tx.inputs@ == seq![p.2] && tx.cell_deps@ == (if kind is ChanOpenInit
                        || kind is ChanOpenTry {
                        seq![
                            converter.spec_chan_contract_outpoint(),
                            converter.spec_conn_contract_outpoint(),
                            converter.spec_client_outpoint(),
                        ]
                    } else {
                        seq![
                            converter.spec_conn_contract_outpoint(),
                            converter.spec_client_outpoint(),
                        ]
                    })) && info.envelope.msg_type == kind && info.envelope.content@ == content@
                        && info.input_capacity == p.1 && info.event is None,
                    None => r matches Err(e) && e is StaleContext,
                }),
                MsgKind::ChanOpenAck | MsgKind::ChanOpenConfirm | MsgKind::ChanCloseInit
                    | MsgKind::RecvPacket => (match (
                    channel_cache_index(
                        converter.spec_channel_cache(),
                        address.channel_id@,
                        0,
                    ),
                    channel_input_lookup(
                        converter.spec_channel_inputs(),
                        address.channel_id@,
                        address.port_id@,
                        0,
                    ),
                ) {
                    (Some(j), Some(input)) => r matches Ok(info) && (info.unsigned_tx matches
                        Some(tx) && tx.inputs@ == seq![input] && tx.cell_deps@ == (
                    if kind is RecvPacket {
                        seq![
                            converter.spec_packet_contract_outpoint(),
                            converter.spec_chan_contract_outpoint(),
                            converter.spec_client_outpoint(),
                        ]
                    } else {
                        seq![
                            converter.spec_chan_contract_outpoint(),
                            converter.spec_client_outpoint(),
                        ]
                    })) && info.envelope.msg_type == kind && info.envelope.content@ == content@
                        && info.input_capacity == converter.spec_channel_cache()[j].1.capacity
                        && info.event is None,
                    _ => r matches Err(e) && e is StaleContext,
                }),
                MsgKind::AckPacket => (match (
                    channel_cache_index(
                        converter.spec_channel_cache(),
                        address.channel_id@,
                        0,
                    ),
                    channel_input_lookup(
                        converter.spec_channel_inputs(),
                        address.channel_id@,
                        address.port_id@,
                        0,
                    ),
                    packet_input_lookup(
                        converter.spec_packet_inputs(),
                        address.channel_id@,
                        address.port_id@,
                        address.sequence,
                        0,
                    ),
                ) {
                    (Some(j), Some(chan_input), Some(packet_cell)) => {
                        let total = converter.spec_channel_cache()[j].1.capacity
                            + packet_cell.1;
                        &&& (total <= u64::MAX ==> (r matches Ok(info) && (
                        info.unsigned_tx matches Some(tx) && tx.inputs@ == seq![
                            chan_input,
                            packet_cell.0,
                        ] && tx.cell_deps@ == seq![
                            converter.spec_packet_contract_outpoint(),
                            converter.spec_chan_contract_outpoint(),
                            converter.spec_client_outpoint(),
                        ]) && info.envelope.msg_type == kind && info.envelope.content@
                            == content@ && info.input_capacity == total && info.event is None))
                        &&& (total > u64::MAX ==> (r matches Err(e) && e is Decode))
                    },
                    _ => r matches Err(e) && e is StaleContext,
                }),
            },
        }),
{
    let kind = match msg_kind_of_url(type_url) {
        Some(k) => k,
        None => {
            return Err(Error::UnsupportedMessageType { type_url: type_url.to_owned() });
        },
    };
    match kind {
        MsgKind::Timeout | MsgKind::ChanCloseConfirm => Err(
            Error::UnsupportedMessageType { type_url: type_url.to_owned() },
        ),
        MsgKind::CreateClient => Ok(
            CkbTxInfo {
                unsigned_tx: None,
                envelope: Envelope { msg_type: kind, content },
                input_capacity: 0,
                event: Some(HandlerEvent::CreateClient { client_id: converter.get_client_id() }),
            },
        ),
        MsgKind::UpdateClient => Ok(
            CkbTxInfo {
                unsigned_tx: None,
                envelope: Envelope { msg_type: kind, content },
                input_capacity: 0,
                event: None,
            },
        ),
        MsgKind::ConnOpenInit | MsgKind::ConnOpenTry | MsgKind::ConnOpenAck
            | MsgKind::ConnOpenConfirm | MsgKind::ChanOpenInit | MsgKind::ChanOpenTry => {
            let connections = match converter.get_ibc_connections() {
                Ok(c) => c,
                Err(e) => {
                    return Err(e);
                },
            };
            let input = match converter.get_ibc_connections_input() {
                Ok(i) => i,
                Err(e) => {
                    return Err(e);
                },
            };
            let is_chan = matches!(kind, MsgKind::ChanOpenInit | MsgKind::ChanOpenTry);
            let cell_deps = if is_chan {
                deps3(
                    converter.get_chan_contract_outpoint(),
                    converter.get_conn_contract_outpoint(),
                    converter.get_client_outpoint(),
                )
            } else {
                deps2(
                    converter.get_conn_contract_outpoint(),
                    converter.get_client_outpoint(),
                )
            };
            Ok(
                CkbTxInfo {
                    unsigned_tx: Some(TxSkeleton { inputs: inputs1(input), cell_deps }),
                    envelope: Envelope { msg_type: kind, content },
                    input_capacity: connections.capacity,
                    event: None,
                },
            )
        },
        MsgKind::ChanOpenAck | MsgKind::ChanOpenConfirm | MsgKind::ChanCloseInit
            | MsgKind::RecvPacket => {
            let channel = match converter.get_ibc_channel(address.channel_id.as_str()) {
                Ok(c) => c,
                Err(e) => {
                    return Err(e);
                },
            };
            let input = match converter.get_ibc_channel_input(
                address.channel_id.as_str(),
                address.port_id.as_str(),
            ) {
                Ok(i) => i,
                Err(e) => {
                    return Err(e);
                },
            };
            let cell_deps = if matches!(kind, MsgKind::RecvPacket) {
                deps3(
                    converter.get_packet_contract_outpoint(),
                    converter.get_chan_contract_outpoint(),
                    converter.get_client_outpoint(),
                )
            } else {
                deps2(
                    converter.get_chan_contract_outpoint(),
                    converter.get_client_outpoint(),
                )
            };
            Ok(
                CkbTxInfo {
                    unsigned_tx: Some(TxSkeleton { inputs: inputs1(input), cell_deps }),
                    envelope: Envelope { msg_type: kind, content },
                    input_capacity: channel.capacity,
                    event: None,
                },
            )
        },
        MsgKind::AckPacket => {
            let channel = match converter.get_ibc_channel(address.channel_id.as_str()) {
                Ok(c) => c,
                Err(e) => {
                    return Err(e);
                },
            };
            let chan_input = match converter.get_ibc_channel_input(
                address.channel_id.as_str(),
                address.port_id.as_str(),
            ) {
                Ok(i) => i,
                Err(e) => {
                    return Err(e);
                },
            };
            let (packet_input, packet_capacity) = match converter.get_packet_cell_input(
                address.channel_id.as_str(),
                address.port_id.as_str(),
                address.sequence,
            ) {
                Ok(cell) => cell,
                Err(e) => {
                    return Err(e);
                },
            };
            let total = match channel.capacity.checked_add(packet_capacity) {
                Some(total) => total,
                None => {
                    return Err(
                        Error::Decode { detail: "input capacity overflows".to_owned() },
                    );
                },
            };
            let cell_deps = deps3(
                converter.get_packet_contract_outpoint(),
                converter.get_chan_contract_outpoint(),
                converter.get_client_outpoint(),
            );
            Ok(
                CkbTxInfo {
                    unsigned_tx: Some(
                        TxSkeleton { inputs: inputs2(chan_input, packet_input), cell_deps },
                    ),
                    envelope: Envelope { msg_type: kind, content },
                    input_capacity: total,
                    event: None,
                },
            )
        },
    }
}

} // verus!
