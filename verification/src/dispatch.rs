//! The message dispatcher: a generic protocol message's type tag picks
//! the ledger call, and after inclusion the single expected event is
//! recovered from the receipt's decoded records.

use vstd::prelude::*;
use crate::error::Error;
use crate::events::{
    clone_bytes, event_views, EventView, EventWithHeightView, HandlerEvent, IbcEventWithHeight,
};
use crate::height::Height;

verus! {

/// Character-for-character equality of two string slices.
pub fn str_eq(a: &str, b: &str) -> (r: bool)
    ensures
        r == (a@ == b@),
{
    let n = a.unicode_len();
    let m = b.unicode_len();
    if n != m {
        proof {
            assert(a@.len() != b@.len());
        }
        return false;
    }
    let mut i: usize = 0;
    while i < n
        invariant
            0 <= i <= n,
            n == a@.len(),
            n == b@.len(),
            forall|k: int| 0 <= k < i ==> a@[k] == b@[k],
        decreases n - i,
    {
        if a.get_char(i) != b.get_char(i) {
            return false;
        }
        i = i + 1;
    }
    proof {
        assert(a@ =~= b@);
    }
    true
}

/// The message kinds the protocol engine can hand the adapter, one per
/// recognised type URL.
#[derive(Clone, Copy, Debug, PartialEq, Eq, Structural)]
pub enum MsgKind {
    CreateClient,
    UpdateClient,
    ConnOpenInit,
    ConnOpenTry,
    ConnOpenAck,
    ConnOpenConfirm,
    ChanOpenInit,
    ChanOpenTry,
    ChanOpenAck,
    ChanOpenConfirm,
    ChanCloseInit,
    ChanCloseConfirm,
    RecvPacket,
    AckPacket,
    Timeout,
}

/// The message kind a type URL names, if any.
pub open spec fn url_kind_spec(u: Seq<char>) -> Option<MsgKind> {
    if u == "/ibc.core.client.v1.MsgCreateClient"@ {
        Some(MsgKind::CreateClient)
    } else if u == "/ibc.core.client.v1.MsgUpdateClient"@ {
        Some(MsgKind::UpdateClient)
    } else if u == "/ibc.core.connection.v1.MsgConnectionOpenInit"@ {
        Some(MsgKind::ConnOpenInit)
    } else if u == "/ibc.core.connection.v1.MsgConnectionOpenTry"@ {
        Some(MsgKind::ConnOpenTry)
    } else if u == "/ibc.core.connection.v1.MsgConnectionOpenAck"@ {
        Some(MsgKind::ConnOpenAck)
    } else if u == "/ibc.core.connection.v1.MsgConnectionOpenConfirm"@ {
        Some(MsgKind::ConnOpenConfirm)
    } else if u == "/ibc.core.channel.v1.MsgChannelOpenInit"@ {
        Some(MsgKind::ChanOpenInit)
    } else if u == "/ibc.core.channel.v1.MsgChannelOpenTry"@ {
        Some(MsgKind::ChanOpenTry)
    } else if u == "/ibc.core.channel.v1.MsgChannelOpenAck"@ {
        Some(MsgKind::ChanOpenAck)
    } else if u == "/ibc.core.channel.v1.MsgChannelOpenConfirm"@ {
        Some(MsgKind::ChanOpenConfirm)
    } else if u == "/ibc.core.channel.v1.MsgChannelCloseInit"@ {
        Some(MsgKind::ChanCloseInit)
    } else if u == "/ibc.core.channel.v1.MsgChannelCloseConfirm"@ {
        Some(MsgKind::ChanCloseConfirm)
    } else if u == "/ibc.core.channel.v1.MsgRecvPacket"@ {
        Some(MsgKind::RecvPacket)
    } else if u == "/ibc.core.channel.v1.MsgAcknowledgement"@ {
        Some(MsgKind::AckPacket)
    } else if u == "/ibc.core.channel.v1.MsgTimeout"@ {
        Some(MsgKind::Timeout)
    } else {
        None
    }
}

/// Looks a type URL up in the fixed table, exactly as `url_kind_spec`
/// says.
pub fn msg_kind_of_url(url: &str) -> (r: Option<MsgKind>)
    ensures
        r == url_kind_spec(url@),
{
    if str_eq(url, "/ibc.core.client.v1.MsgCreateClient") {
        Some(MsgKind::CreateClient)
    } else if str_eq(url, "/ibc.core.client.v1.MsgUpdateClient") {
        Some(MsgKind::UpdateClient)
    } else if str_eq(url, "/ibc.core.connection.v1.MsgConnectionOpenInit") {
        Some(MsgKind::ConnOpenInit)
    } else if str_eq(url, "/ibc.core.connection.v1.MsgConnectionOpenTry") {
        Some(MsgKind::ConnOpenTry)
    } else if str_eq(url, "/ibc.core.connection.v1.MsgConnectionOpenAck") {
        Some(MsgKind::ConnOpenAck)
    } else if str_eq(url, "/ibc.core.connection.v1.MsgConnectionOpenConfirm") {
        Some(MsgKind::ConnOpenConfirm)
    } else if str_eq(url, "/ibc.core.channel.v1.MsgChannelOpenInit") {
        Some(MsgKind::ChanOpenInit)
    } else if str_eq(url, "/ibc.core.channel.v1.MsgChannelOpenTry") {
        Some(MsgKind::ChanOpenTry)
    } else if str_eq(url, "/ibc.core.channel.v1.MsgChannelOpenAck") {
        Some(MsgKind::ChanOpenAck)
    } else if str_eq(url, "/ibc.core.channel.v1.MsgChannelOpenConfirm") {
        Some(MsgKind::ChanOpenConfirm)
    } else if str_eq(url, "/ibc.core.channel.v1.MsgChannelCloseInit") {
        Some(MsgKind::ChanCloseInit)
    } else if str_eq(url, "/ibc.core.channel.v1.MsgChannelCloseConfirm") {
        Some(MsgKind::ChanCloseConfirm)
    } else if str_eq(url, "/ibc.core.channel.v1.MsgRecvPacket") {
        Some(MsgKind::RecvPacket)
    } else if str_eq(url, "/ibc.core.channel.v1.MsgAcknowledgement") {
        Some(MsgKind::AckPacket)
    } else if str_eq(url, "/ibc.core.channel.v1.MsgTimeout") {
        Some(MsgKind::Timeout)
    } else {
        None
    }
}

/// The ledger calls the contract chain offers for protocol messages.
#[derive(Clone, Copy, Debug, PartialEq, Eq, Structural)]
pub enum LedgerCall {
    CreateClient,
    UpdateClient,
    ConnectionOpenInit,
    ConnectionOpenTry,
    ConnectionOpenAck,
    ConnectionOpenConfirm,
    ChannelOpenInit,
    ChannelOpenTry,
    ChannelOpenAck,
    ChannelOpenConfirm,
    ChannelCloseInit,
    ChannelCloseConfirm,
    RecvPacket,
    AcknowledgePacket,
}

/// The ledger call each message kind maps to, one entry per kind.  A
/// timeout message maps to the receive call: this ledger has no native
/// timeout primitive.
pub open spec fn call_for_kind(k: MsgKind) -> LedgerCall {
    match k {
        MsgKind::CreateClient => LedgerCall::CreateClient,
        MsgKind::UpdateClient => LedgerCall::UpdateClient,
        MsgKind::ConnOpenInit => LedgerCall::ConnectionOpenInit,
        MsgKind::ConnOpenTry => LedgerCall::ConnectionOpenTry,
        MsgKind::ConnOpenAck => LedgerCall::ConnectionOpenAck,
        MsgKind::ConnOpenConfirm => LedgerCall::ConnectionOpenConfirm,
        MsgKind::ChanOpenInit => LedgerCall::ChannelOpenInit,
        MsgKind::ChanOpenTry => LedgerCall::ChannelOpenTry,
        MsgKind::ChanOpenAck => LedgerCall::ChannelOpenAck,
        MsgKind::ChanOpenConfirm => LedgerCall::ChannelOpenConfirm,
        MsgKind::ChanCloseInit => LedgerCall::ChannelCloseInit,
        MsgKind::ChanCloseConfirm => LedgerCall::ChannelCloseConfirm,
        MsgKind::RecvPacket => LedgerCall::RecvPacket,
        MsgKind::AckPacket => LedgerCall::AcknowledgePacket,
        MsgKind::Timeout => LedgerCall::RecvPacket,
    }
}

/// Picks the ledger call for a message's type URL; every known kind,
/// the client family included, dispatches to its call.  Only an unknown
/// URL fails, with the unsupported-type error carrying the URL itself.
pub fn dispatch_ledger_call(url: &str) -> (r: Result<(MsgKind, LedgerCall), Error>)
    ensures
        match url_kind_spec(url@) {
            Some(k) => r matches Ok(p) && p == (k, call_for_kind(k)),
            None => r matches Err(e) && e matches Error::UnsupportedMessageType { type_url }
                && type_url@ == url@,
        },
{
    match msg_kind_of_url(url) {
        Some(kind) => match kind {
            MsgKind::CreateClient => Ok((kind, LedgerCall::CreateClient)),
            MsgKind::UpdateClient => Ok((kind, LedgerCall::UpdateClient)),
            MsgKind::ConnOpenInit => Ok((kind, LedgerCall::ConnectionOpenInit)),
            MsgKind::ConnOpenTry => Ok((kind, LedgerCall::ConnectionOpenTry)),
            MsgKind::ConnOpenAck => Ok((kind, LedgerCall::ConnectionOpenAck)),
            MsgKind::ConnOpenConfirm => Ok((kind, LedgerCall::ConnectionOpenConfirm)),
            MsgKind::ChanOpenInit => Ok((kind, LedgerCall::ChannelOpenInit)),
            MsgKind::ChanOpenTry => Ok((kind, LedgerCall::ChannelOpenTry)),
            MsgKind::ChanOpenAck => Ok((kind, LedgerCall::ChannelOpenAck)),
            MsgKind::ChanOpenConfirm => Ok((kind, LedgerCall::ChannelOpenConfirm)),
            MsgKind::ChanCloseInit => Ok((kind, LedgerCall::ChannelCloseInit)),
            MsgKind::ChanCloseConfirm => Ok((kind, LedgerCall::ChannelCloseConfirm)),
            MsgKind::RecvPacket => Ok((kind, LedgerCall::RecvPacket)),
            MsgKind::AckPacket => Ok((kind, LedgerCall::AcknowledgePacket)),
            MsgKind::Timeout => Ok((kind, LedgerCall::RecvPacket)),
        },
        None => Err(Error::UnsupportedMessageType { type_url: url.to_owned() }),
    }
}

/// Whether a decoded receipt event is the one a message kind is expected
/// to produce.  A timeout message is expected to produce a
/// receive-packet event, as its ledger call is the receive call.
pub open spec fn event_matches_msg(kind: MsgKind, e: EventView) -> bool {
    match kind {
        MsgKind::CreateClient => e is CreateClient,
        MsgKind::UpdateClient => e is UpdateClient,
        MsgKind::ConnOpenInit => e is OpenInitConnection,
        MsgKind::ConnOpenTry => e is OpenTryConnection,
        MsgKind::ConnOpenAck => e is OpenAckConnection,
        MsgKind::ConnOpenConfirm => e is OpenConfirmConnection,
        MsgKind::ChanOpenInit => e is OpenInitChannel,
        MsgKind::ChanOpenTry => e is OpenTryChannel,
        MsgKind::ChanOpenAck => e is OpenAckChannel,
        MsgKind::ChanOpenConfirm => e is OpenConfirmChannel,
        MsgKind::ChanCloseInit => e is CloseInitChannel,
        MsgKind::ChanCloseConfirm => e is CloseConfirmChannel,
        MsgKind::RecvPacket => e is ReceivePacket,
        MsgKind::AckPacket => e is AcknowledgePacket,
        MsgKind::Timeout => e is ReceivePacket,
    }
}

/// Exactly `event_matches_msg`, executably.
pub fn event_is_expected(kind: MsgKind, e: &HandlerEvent) -> (r: bool)
    ensures
        r == event_matches_msg(kind, e@),
{
    match kind {
        MsgKind::CreateClient => matches!(e, HandlerEvent::CreateClient { .. }),
        MsgKind::UpdateClient => matches!(e, HandlerEvent::UpdateClient { .. }),
        MsgKind::ConnOpenInit => matches!(e, HandlerEvent::OpenInitConnection { .. }),
        MsgKind::ConnOpenTry => matches!(e, HandlerEvent::OpenTryConnection { .. }),
        MsgKind::ConnOpenAck => matches!(e, HandlerEvent::OpenAckConnection { .. }),
        MsgKind::ConnOpenConfirm => matches!(e, HandlerEvent::OpenConfirmConnection { .. }),
        MsgKind::ChanOpenInit => matches!(e, HandlerEvent::OpenInitChannel { .. }),
        MsgKind::ChanOpenTry => matches!(e, HandlerEvent::OpenTryChannel { .. }),
        MsgKind::ChanOpenAck => matches!(e, HandlerEvent::OpenAckChannel { .. }),
        MsgKind::ChanOpenConfirm => matches!(e, HandlerEvent::OpenConfirmChannel { .. }),
        MsgKind::ChanCloseInit => matches!(e, HandlerEvent::CloseInitChannel { .. }),
        MsgKind::ChanCloseConfirm => matches!(e, HandlerEvent::CloseConfirmChannel { .. }),
        MsgKind::RecvPacket => matches!(e, HandlerEvent::ReceivePacket { .. }),
        MsgKind::AckPacket => matches!(e, HandlerEvent::AcknowledgePacket { .. }),
        MsgKind::Timeout => matches!(e, HandlerEvent::ReceivePacket { .. }),
    }
}

/// An inclusion receipt, reduced to what event recovery reads: the
/// decoded records (an undecodable one is `None`), the block the
/// transaction landed in if any, and its hash.
#[derive(Debug)]
pub struct TxReceipt {
    pub events: Vec<Option<HandlerEvent>>,
    pub block_number: Option<u64>,
    pub tx_hash: Vec<u8>,
}

/// Spec-level image of `TxReceipt`.
pub struct ReceiptView {
    pub events: Seq<Option<EventView>>,
    pub block_number: Option<u64>,
    pub tx_hash: Seq<u8>,
}

impl View for TxReceipt {
    type V = ReceiptView;

    open spec fn view(&self) -> ReceiptView {
        ReceiptView {
            events: Seq::new(
                self.events@.len(),
                |i: int|
                    match self.events@[i] {
                        Some(e) => Some(e@),
                        None => None,
                    },
            ),
            block_number: self.block_number,
            tx_hash: self.tx_hash@,
        }
    }
}

/// How many decoded records from index `i` on match the expected kind.
pub open spec fn count_matching(evs: Seq<Option<EventView>>, kind: MsgKind, i: int) -> int
    decreases evs.len() - i,
{
    if !(0 <= i < evs.len()) {
        0
    } else {
        (match evs[i] {
            Some(e) => if event_matches_msg(kind, e) {
                1int
            } else {
                0int
            },
            None => 0int,
        }) + count_matching(evs, kind, i + 1)
    }
}

/// The first decoded record from index `i` on that matches the expected
/// kind.
pub open spec fn first_matching(evs: Seq<Option<EventView>>, kind: MsgKind, i: int) -> Option<
    EventView,
>
    decreases evs.len() - i,
{
    if !(0 <= i < evs.len()) {
        None
    } else {
        match evs[i] {
            Some(e) => if event_matches_msg(kind, e) {
                Some(e)
            } else {
                first_matching(evs, kind, i + 1)
            },
            None => first_matching(evs, kind, i + 1),
        }
    }
}

proof fn lemma_count_matching_nonneg(evs: Seq<Option<EventView>>, kind: MsgKind, i: int)
    ensures
        count_matching(evs, kind, i) >= 0,
    decreases evs.len() - i,
{
    if 0 <= i < evs.len() {
        lemma_count_matching_nonneg(evs, kind, i + 1);
    }
}

proof fn lemma_no_match_from(evs: Seq<Option<EventView>>, kind: MsgKind, i: int)
    requires
        forall|k: int|
            i <= k < evs.len() ==> !((#[trigger] evs[k]) matches Some(e) && event_matches_msg(
                kind,
                e,
            )),
    ensures
        count_matching(evs, kind, i) == 0,
        first_matching(evs, kind, i) is None,
    decreases evs.len() - i,
{
    if 0 <= i < evs.len() {
        lemma_no_match_from(evs, kind, i + 1);
    }
}

/// A receipt with exactly one record matching the expected kind counts
/// one match, and the first match is that record's event: combined with
/// the recovery contract, such a receipt with a block number yields
/// exactly that event at the receipt's height and hash, and without one
/// is still pending.
pub proof fn lemma_single_matching_log_recovered(
    evs: Seq<Option<EventView>>,
    kind: MsgKind,
    j: int,
)
    requires
        0 <= j < evs.len(),
        evs[j] matches Some(e) && event_matches_msg(kind, e),
        forall|k: int|
            0 <= k < evs.len() && k != j ==> !((#[trigger] evs[k]) matches Some(e)
                && event_matches_msg(kind, e)),
    ensures
        count_matching(evs, kind, 0) == 1,
        first_matching(evs, kind, 0) == Some(evs[j]->0),
{
    lemma_single_matching_from(evs, kind, j, 0);
}

proof fn lemma_single_matching_from(evs: Seq<Option<EventView>>, kind: MsgKind, j: int, i: int)
    requires
        0 <= i <= j < evs.len(),
        evs[j] matches Some(e) && event_matches_msg(kind, e),
        forall|k: int|
            i <= k < evs.len() && k != j ==> !((#[trigger] evs[k]) matches Some(e)
                && event_matches_msg(kind, e)),
    ensures
        count_matching(evs, kind, i) == 1,
        first_matching(evs, kind, i) == Some(evs[j]->0),
    decreases j - i,
{
    if i == j {
        lemma_no_match_from(evs, kind, j + 1);
    } else {
        lemma_single_matching_from(evs, kind, j, i + 1);
    }
}

/// Recovers the one canonical event a submitted message produced, from
/// its inclusion receipt.  An update-client message is the one special
/// case: this ledger reports no event for an update, so its canonical
/// event is synthesized from the message's own client id (the
/// `client_id` argument, read for that kind alone) at the receipt's
/// position.  For every other kind the receipt's records are searched:
/// no matching record is a recovery failure, more than one is
/// ambiguous; a receipt without a block number is still pending either
/// way, and success yields the event at the receipt's height and hash.
pub fn recover_event(kind: MsgKind, client_id: &str, receipt: &TxReceipt) -> (r: Result<
    IbcEventWithHeight,
    Error,
>)
    ensures
        ({
            let evs = receipt@.events;
            let c = count_matching(evs, kind, 0);
            &&& (kind is UpdateClient && receipt@.block_number is None ==> (r matches Err(e)
                && e is StillPending))
            &&& (kind is UpdateClient && receipt@.block_number is Some ==> (r matches Ok(ev)
                && ev@ == (EventWithHeightView {
                event: EventView::UpdateClient { client_id: client_id@ },
                height: Height {
                    revision_number: 0,
                    revision_height: receipt@.block_number->0,
                },
                tx_hash: receipt@.tx_hash,
            })))
            &&& (!(kind is UpdateClient) ==> {
                &&& (c == 0 ==> (r matches Err(e) && e is EventNotFound))
                &&& (c > 1 ==> (r matches Err(e) && e is AmbiguousEvent))
                &&& (c == 1 && receipt@.block_number is None ==> (r matches Err(e)
                    && e is StillPending))
                &&& (c == 1 && receipt@.block_number is Some ==> (r matches Ok(ev) && ev@
                    == (EventWithHeightView {
                    event: first_matching(evs, kind, 0)->0,
                    height: Height {
                        revision_number: 0,
                        revision_height: receipt@.block_number->0,
                    },
                    tx_hash: receipt@.tx_hash,
                })))
            })
        }),
{
    if matches!(kind, MsgKind::UpdateClient) {
        return match &receipt.block_number {
            Some(n) => Ok(
                update_client_event(client_id.to_owned(), *n, clone_bytes(&receipt.tx_hash)),
            ),
            None => Err(Error::StillPending),
        };
    }
    let ghost evs = receipt@.events;
    let mut found: Option<HandlerEvent> = None;
    let mut count: u64 = 0;
    let mut i: usize = 0;
    while i < receipt.events.len()
        invariant
            0 <= i <= receipt.events@.len(),
            evs == receipt@.events,
            evs.len() == receipt.events@.len(),
            count == count_matching(evs, kind, 0) - count_matching(evs, kind, i as int),
            count <= i,
            match found {
                Some(e) => count > 0 && first_matching(evs, kind, 0) == Some(e@),
                None => count == 0 && first_matching(evs, kind, 0) == first_matching(
                    evs,
                    kind,
                    i as int,
                ),
            },
        decreases receipt.events@.len() - i,
    {
        proof {
            lemma_count_matching_nonneg(evs, kind, i as int + 1);
            assert(evs[i as int] == (match receipt.events@[i as int] {
                Some(e) => Some(e@),
                None => None,
            }));
        }
        match &receipt.events[i] {
            Some(e) => {
                if event_is_expected(kind, e) {
                    count = count + 1;
                    if count == 1 {
                        found = Some(e.clone());
                    }
                }
            },
            None => {
            },
        }
        i = i + 1;
    }
    proof {
        assert(count_matching(evs, kind, evs.len() as int) == 0);
        assert(first_matching(evs, kind, evs.len() as int) is None);
    }
    if count == 0 {
        return Err(Error::EventNotFound);
    }
    if count > 1 {
        return Err(Error::AmbiguousEvent);
    }
    match (found, &receipt.block_number) {
        (Some(event), Some(n)) => Ok(
            IbcEventWithHeight {
                event,
                height: Height::from_noncosmos_height(*n),
                tx_hash: clone_bytes(&receipt.tx_hash),
            },
        ),
        _ => Err(Error::StillPending),
    }
}

/// The synthesized update-client event: this ledger reports no event for
/// an update, so the dispatcher builds the canonical one from the
/// message's own client id and the receipt's position.
pub fn update_client_event(client_id: String, block_number: u64, tx_hash: Vec<u8>) -> (r:
    IbcEventWithHeight)
    ensures
        r@ == (EventWithHeightView {
            event: EventView::UpdateClient { client_id: client_id@ },
            height: Height { revision_number: 0, revision_height: block_number },
            tx_hash: tx_hash@,
        }),
{
    IbcEventWithHeight {
        event: HandlerEvent::UpdateClient { client_id },
        height: Height::from_noncosmos_height(block_number),
        tx_hash,
    }
}

/// Index of the first failed submission, or the length when all
/// succeeded.
pub open spec fn first_err_index(rs: Seq<Result<IbcEventWithHeight, Error>>, i: int) -> int
    decreases rs.len() - i,
{
    if !(0 <= i < rs.len()) {
        rs.len() as int
    } else if rs[i] is Err {
        i
    } else {
        first_err_index(rs, i + 1)
    }
}

/// Strictly sequential batch collection: the events of a batch in input
/// order, unless some message failed, in which case the first failure
/// aborts the whole batch and is reported alone.
pub fn collect_batch(results: Vec<Result<IbcEventWithHeight, Error>>) -> (r: Result<
    Vec<IbcEventWithHeight>,
    Error,
>)
    ensures
        ({
            let rs = results@;
            let j = first_err_index(rs, 0);
            &&& (j == rs.len() ==> (r matches Ok(events) && event_views(events@) == Seq::new(
                rs.len(),
                |k: int| rs[k]->Ok_0@,
            )))
            &&& (j < rs.len() ==> (r matches Err(e) && e == rs[j]->Err_0))
        }),
{
    let ghost rs = results@;
    let mut out: Vec<IbcEventWithHeight> = Vec::new();
    let mut i: usize = 0;
    proof {
        lemma_first_err_bounds(rs, 0);
    }
    while i < results.len()
        invariant
            0 <= i <= rs.len(),
            results@ == rs,
            out@.len() == i,
            first_err_index(rs, 0) == first_err_index(rs, i as int),
            forall|k: int| #![all_triggers] 0 <= k < i ==> rs[k] is Ok && out@[k]@ == rs[k]->Ok_0@,
        decreases rs.len() - i,
    {
        let ghost out0 = out@;
        match &results[i] {
            Ok(ev) => {
                proof {
                    assert(rs[i as int] is Ok);
                    assert(first_err_index(rs, i as int) == first_err_index(rs, i as int + 1));
                    lemma_first_err_bounds(rs, i as int + 1);
                }
                let copy = ev.clone();
                out.push(copy);
                proof {
                    assert(forall|k: int| 0 <= k < i ==> out@[k] == out0[k]);
                    assert(out@[i as int]@ == rs[i as int]->Ok_0@);
                    assert forall|k: int| #![all_triggers] 0 <= k < i + 1 implies rs[k] is Ok
                        && out@[k]@ == rs[k]->Ok_0@ by {
                        if k < i {
                            assert(rs[k] is Ok && out0[k]@ == rs[k]->Ok_0@);
                            assert(out@[k] == out0[k]);
                        }
                    }
                }
            },
            Err(e) => {
                proof {
                    assert(rs[i as int] is Err);
                    assert(first_err_index(rs, i as int) == i);
                }
                return Err(e.clone());
            },
        }
        i = i + 1;
    }
    proof {
        assert(first_err_index(rs, rs.len() as int) == rs.len());
        assert(event_views(out@) =~= Seq::new(rs.len(), |k: int| rs[k]->Ok_0@));
    }
    Ok(out)
}

proof fn lemma_first_err_bounds(rs: Seq<Result<IbcEventWithHeight, Error>>, i: int)
    requires
        0 <= i <= rs.len(),
    ensures
        i <= first_err_index(rs, i) <= rs.len(),
    decreases rs.len() - i,
{
    if i < rs.len() {
        if rs[i] is Err {
        } else {
            lemma_first_err_bounds(rs, i + 1);
        }
    }
}


/// One entry of the check-transaction report: the success code, the
/// event's kind label as its payload, an empty log, and the
/// transaction hash the event committed in.
#[derive(Debug)]
pub struct CheckTxResponse {
    pub code: u32,
    pub data: String,
    pub log: String,
    pub hash: Vec<u8>,
}

/// Shapes committed events into check-transaction responses, one per
/// event in order: every response reports success, carries the event's
/// kind label, and names the event's transaction.
pub fn check_tx_responses(events: &Vec<IbcEventWithHeight>) -> (r: Vec<CheckTxResponse>)
    ensures
        r@.len() == events@.len(),
        forall|k: int|
            0 <= k < events@.len() ==> {
                let resp = #[trigger] r@[k];
                &&& resp.code == 0
                &&& resp.data@ == crate::events::event_label(events@[k]@.event)
                &&& resp.log@ == Seq::<char>::empty()
                &&& resp.hash@ == events@[k]@.tx_hash
            },
{
    let mut out: Vec<CheckTxResponse> = Vec::new();
    let mut i: usize = 0;
    while i < events.len()
        invariant
            0 <= i <= events@.len(),
            out@.len() == i,
            forall|k: int|
                0 <= k < i ==> {
                    let resp = #[trigger] out@[k];
                    &&& resp.code == 0
                    &&& resp.data@ == crate::events::event_label(events@[k]@.event)
                    &&& resp.log@ == Seq::<char>::empty()
                    &&& resp.hash@ == events@[k]@.tx_hash
                },
        decreases events@.len() - i,
    {
        let label = events[i].event.label();
        out.push(
            CheckTxResponse {
                code: 0,
                data: label.to_owned(),
                log: String::new(),
                hash: clone_bytes(&events[i].tx_hash),
            },
        );
        i = i + 1;
    }
    out
}

} // verus!
