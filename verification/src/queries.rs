//! The plain-state query surface: every function here shapes what the
//! ledger answered into the typed result the protocol engine expects,
//! with absence reported as the semantically right thing — not-found
//! where absence is valid, an error where it is not.

use vstd::prelude::*;
use vstd::string::StringSliceAdditionalSpecFns;
use crate::error::Error;
use crate::height::Height;

verus! {

/// Nanoseconds per second.
pub const SEC_TO_NANO: u64 = 1_000_000_000;

/// Converts a block timestamp in seconds to nanoseconds; a value too
/// large for the 64-bit nanosecond clock is a decode failure.
pub fn to_timestamp(seconds: u64) -> (r: Result<u64, Error>)
    ensures
        seconds * SEC_TO_NANO <= u64::MAX ==> (r matches Ok(n) && n == seconds * SEC_TO_NANO),
        seconds * SEC_TO_NANO > u64::MAX ==> (r matches Err(e) && e is Decode),
{
    match seconds.checked_mul(SEC_TO_NANO) {
        Some(n) => Ok(n),
        None => Err(Error::Decode { detail: "timestamp overflows nanoseconds".to_owned() }),
    }
}

/// The chain's current position: its tip height and that block's
/// timestamp in nanoseconds.
#[derive(Clone, Copy, Debug, PartialEq, Eq, Structural)]
pub struct ChainStatus {
    pub height: Height,
    pub timestamp_ns: u64,
}

/// The head fields of a fetched block that the status query reads.
#[derive(Clone, Copy, Debug, PartialEq, Eq, Structural)]
pub struct BlockHead {
    pub number: Option<u64>,
    pub timestamp_secs: u64,
}

/// Shapes the application-status answer: with a tip block, its number
/// (or the sentinel height for a pending block) and its timestamp; with
/// no block at all, the sentinel height and the caller's clock.
pub fn application_status(tip: Option<BlockHead>, now_ns: u64) -> (r: Result<ChainStatus, Error>)
    ensures
        tip is None ==> r == Ok::<ChainStatus, Error>(ChainStatus {
            height: Height { revision_number: 0, revision_height: 0 },
            timestamp_ns: now_ns,
        }),
        (match tip {
            Some(b) => {
                &&& (b.timestamp_secs * SEC_TO_NANO <= u64::MAX ==> (r matches Ok(s)
                    && s.timestamp_ns == b.timestamp_secs * SEC_TO_NANO && s.height
                    == (match b.number {
                    Some(n) => Height { revision_number: 0, revision_height: n },
                    None => Height { revision_number: 0, revision_height: 0 },
                })))
                &&& (b.timestamp_secs * SEC_TO_NANO > u64::MAX ==> (r matches Err(e)
                    && e is Decode))
            },
            None => true,
        }),
{
    match tip {
        None => Ok(
            ChainStatus { height: Height::zero(), timestamp_ns: now_ns },
        ),
        Some(b) => {
            let timestamp_ns = match to_timestamp(b.timestamp_secs) {
                Ok(n) => n,
                Err(e) => {
                    return Err(e);
                },
            };
            let height = match b.number {
                Some(n) => Height::from_noncosmos_height(n),
                None => Height::zero(),
            };
            Ok(ChainStatus { height, timestamp_ns })
        },
    }
}

/// Whether the caller wants a membership proof with the queried value.
#[derive(Clone, Copy, Debug, PartialEq, Eq, Structural)]
pub enum IncludeProof {
    Yes,
    No,
}

/// Shapes a packet-commitment answer.  A missing commitment is
/// semantically valid absence and reported as not-found, never as raw
/// empty bytes; a present one comes back as its raw bytes with no
/// proof, which is all this chain's query endpoint offers.
pub fn packet_commitment_response(
    commitment: Vec<u8>,
    found: bool,
    _include_proof: IncludeProof,
) -> (r: Result<(Vec<u8>, Option<Vec<u8>>), Error>)
    ensures
        !found ==> (r matches Err(e) && e is NotFound),
        found ==> (r matches Ok(p) && p.0@ == commitment@ && p.1 is None),
{
    if !found {
        return Err(Error::NotFound);
    }
    Ok((commitment, None))
}

/// Shapes a packet-acknowledgement-commitment answer, exactly as the
/// packet-commitment one.
pub fn packet_acknowledgement_response(
    commitment: Vec<u8>,
    found: bool,
    _include_proof: IncludeProof,
) -> (r: Result<(Vec<u8>, Option<Vec<u8>>), Error>)
    ensures
        !found ==> (r matches Err(e) && e is NotFound),
        found ==> (r matches Ok(p) && p.0@ == commitment@ && p.1 is None),
{
    if !found {
        return Err(Error::NotFound);
    }
    Ok((commitment, None))
}

/// Shapes a packet-receipt answer: presence is the one-byte marker,
/// absence the empty byte string — both are valid answers here.
pub fn packet_receipt_response(has_receipt: bool) -> (r: (Vec<u8>, Option<Vec<u8>>))
    ensures
        has_receipt ==> r.0@ == seq![1u8],
        !has_receipt ==> r.0@ == Seq::<u8>::empty(),
        r.1 is None,
{
    if has_receipt {
        let mut marker: Vec<u8> = Vec::new();
        marker.push(1u8);
        proof {
            assert(marker@ =~= seq![1u8]);
        }
        (marker, None)
    } else {
        let empty: Vec<u8> = Vec::new();
        proof {
            assert(empty@ =~= Seq::<u8>::empty());
        }
        (empty, None)
    }
}

/// The sequences from index `i` on whose paired flag is set.
pub open spec fn flagged_seqs(entries: Seq<(u64, bool)>, i: int) -> Seq<u64>
    decreases entries.len() - i,
{
    if !(0 <= i < entries.len()) {
        Seq::empty()
    } else {
        let rest = flagged_seqs(entries, i + 1);
        if entries[i].1 {
            seq![entries[i].0] + rest
        } else {
            rest
        }
    }
}

/// The sequences from index `i` on whose paired flag is clear.
pub open spec fn unflagged_seqs(entries: Seq<(u64, bool)>, i: int) -> Seq<u64>
    decreases entries.len() - i,
{
    if !(0 <= i < entries.len()) {
        Seq::empty()
    } else {
        let rest = unflagged_seqs(entries, i + 1);
        if !entries[i].1 {
            seq![entries[i].0] + rest
        } else {
            rest
        }
    }
}

/// Keeps the sequences whose flag is set, in order.
pub fn sequences_with_flag(entries: &Vec<(u64, bool)>) -> (r: Vec<u64>)
    ensures
        r@ == flagged_seqs(entries@, 0),
{
    let mut out: Vec<u64> = Vec::new();
    let mut i: usize = 0;
    while i < entries.len()
        invariant
            0 <= i <= entries@.len(),
            flagged_seqs(entries@, 0) == out@ + flagged_seqs(entries@, i as int),
        decreases entries@.len() - i,
    {
        let (seq_no, flag) = entries[i];
        if flag {
            out.push(seq_no);
            proof {
                assert(flagged_seqs(entries@, i as int) == seq![entries@[i as int].0]
                    + flagged_seqs(entries@, i as int + 1));
                assert(out@ =~= out@.drop_last() + seq![entries@[i as int].0]);
                assert(out@.drop_last() + (seq![entries@[i as int].0] + flagged_seqs(
                    entries@,
                    i as int + 1,
                )) =~= out@ + flagged_seqs(entries@, i as int + 1));
            }
        }
        i = i + 1;
    }
    proof {
        assert(out@ + flagged_seqs(entries@, entries@.len() as int) =~= out@);
    }
    out
}

/// Keeps the sequences whose flag is clear, in order.
pub fn sequences_without_flag(entries: &Vec<(u64, bool)>) -> (r: Vec<u64>)
    ensures
        r@ == unflagged_seqs(entries@, 0),
{
    let mut out: Vec<u64> = Vec::new();
    let mut i: usize = 0;
    while i < entries.len()
        invariant
            0 <= i <= entries@.len(),
            unflagged_seqs(entries@, 0) == out@ + unflagged_seqs(entries@, i as int),
        decreases entries@.len() - i,
    {
        let (seq_no, flag) = entries[i];
        if !flag {
            out.push(seq_no);
            proof {
                assert(unflagged_seqs(entries@, i as int) == seq![entries@[i as int].0]
                    + unflagged_seqs(entries@, i as int + 1));
                assert(out@ =~= out@.drop_last() + seq![entries@[i as int].0]);
                assert(out@.drop_last() + (seq![entries@[i as int].0] + unflagged_seqs(
                    entries@,
                    i as int + 1,
                )) =~= out@ + unflagged_seqs(entries@, i as int + 1));
            }
        }
        i = i + 1;
    }
    proof {
        assert(out@ + unflagged_seqs(entries@, entries@.len() as int) =~= out@);
    }
    out
}

/// The sequences from index `i` on that are at least the bound.
pub open spec fn seqs_at_least(seqs: Seq<u64>, bound: u64, i: int) -> Seq<u64>
    decreases seqs.len() - i,
{
    if !(0 <= i < seqs.len()) {
        Seq::empty()
    } else {
        let rest = seqs_at_least(seqs, bound, i + 1);
        if seqs[i] >= bound {
            seq![seqs[i]] + rest
        } else {
            rest
        }
    }
}

/// The unreceived packets of an ordered channel: the commitments whose
/// sequence has not yet been passed by the channel's next-receive
/// counter.
pub fn unreceived_ordered(sequences: &Vec<u64>, next_recv: u64) -> (r: Vec<u64>)
    ensures
        r@ == seqs_at_least(sequences@, next_recv, 0),
{
    let mut out: Vec<u64> = Vec::new();
    let mut i: usize = 0;
    while i < sequences.len()
        invariant
            0 <= i <= sequences@.len(),
            seqs_at_least(sequences@, next_recv, 0) == out@ + seqs_at_least(
                sequences@,
                next_recv,
                i as int,
            ),
        decreases sequences@.len() - i,
    {
        let s = sequences[i];
        if s >= next_recv {
            out.push(s);
            proof {
                assert(seqs_at_least(sequences@, next_recv, i as int) == seq![
                    sequences@[i as int],
                ] + seqs_at_least(sequences@, next_recv, i as int + 1));
                assert(out@ =~= out@.drop_last() + seq![sequences@[i as int]]);
                assert(out@.drop_last() + (seq![sequences@[i as int]] + seqs_at_least(
                    sequences@,
                    next_recv,
                    i as int + 1,
                )) =~= out@ + seqs_at_least(sequences@, next_recv, i as int + 1));
            }
        }
        i = i + 1;
    }
    proof {
        assert(out@ + seqs_at_least(sequences@, next_recv, sequences@.len() as int) =~= out@);
    }
    out
}

/// The unreceived packets of an unordered channel: each sequence paired
/// with whether its receipt exists; those without a receipt are
/// unreceived.
pub fn unreceived_unordered(entries: &Vec<(u64, bool)>) -> (r: Vec<u64>)
    ensures
        r@ == unflagged_seqs(entries@, 0),
{
    sequences_without_flag(entries)
}

/// Converts raw (revision number, revision height) pairs into heights.
/// A pair with revision height zero is no valid consensus height and
/// fails the whole answer.
pub fn heights_from_pairs(pairs: &Vec<(u64, u64)>) -> (r: Result<Vec<Height>, Error>)
    ensures
        (forall|k: int| 0 <= k < pairs@.len() ==> (#[trigger] pairs@[k]).1 > 0) <==> r is Ok,
        r matches Err(e) ==> e is InvalidHeight,
        r matches Ok(hs) ==> hs@.len() == pairs@.len() && (forall|k: int|
            0 <= k < pairs@.len() ==> (#[trigger] hs@[k]) == (Height {
                revision_number: pairs@[k].0,
                revision_height: pairs@[k].1,
            })),
{
    let mut out: Vec<Height> = Vec::new();
    let mut i: usize = 0;
    while i < pairs.len()
        invariant
            0 <= i <= pairs@.len(),
            out@.len() == i,
            forall|k: int| 0 <= k < i ==> (#[trigger] pairs@[k]).1 > 0,
            forall|k: int|
                0 <= k < i ==> (#[trigger] out@[k]) == (Height {
                    revision_number: pairs@[k].0,
                    revision_height: pairs@[k].1,
                }),
        decreases pairs@.len() - i,
    {
        let (rev, h) = pairs[i];
        if h == 0 {
            return Err(Error::InvalidHeight);
        }
        out.push(Height { revision_number: rev, revision_height: h });
        i = i + 1;
    }
    Ok(out)
}

/// The commitment prefix under which this chain stores protocol state;
/// an empty prefix is refused.
pub fn commitment_prefix(store_prefix: &str) -> (r: Result<Vec<u8>, Error>)
    ensures
        store_prefix@.len() == 0 ==> (r matches Err(e) && e is Decode),
        store_prefix@.len() > 0 ==> (r matches Ok(b) && b@ == store_prefix.spec_bytes()),
{
    if store_prefix.unicode_len() == 0 {
        proof {
            assert(store_prefix@ =~= Seq::<char>::empty());
        }
        return Err(Error::Decode { detail: "empty commitment prefix".to_owned() });
    }
    Ok(store_prefix.as_bytes_vec())
}

pub open spec fn is_hex_digit(c: char) -> bool {
    ('0' <= c <= '9') || ('a' <= c <= 'f') || ('A' <= c <= 'F')
}

/// The value of one hex digit.
pub open spec fn hex_val(c: char) -> int {
    if '0' <= c <= '9' {
        c as int - '0' as int
    } else if 'a' <= c <= 'f' {
        c as int - 'a' as int + 10
    } else {
        c as int - 'A' as int + 10
    }
}

/// A string that decodes as hex: even length, hex digits throughout.
pub open spec fn hex_decodes(s: Seq<char>) -> bool {
    s.len() % 2 == 0 && (forall|i: int| 0 <= i < s.len() ==> is_hex_digit(#[trigger] s[i]))
}

/// The byte at position `i` of the decoding.
pub open spec fn hex_byte(s: Seq<char>, i: int) -> int {
    16 * hex_val(s[2 * i]) + hex_val(s[2 * i + 1])
}

/// Relies on hex::decode: succeeds exactly on even-length strings of
/// hex digits, and yields one byte per digit pair, high nibble first.
#[verifier::external_body]
fn hex_decode(s: &str) -> (r: Result<Vec<u8>, Error>)
    ensures
        r is Ok <==> hex_decodes(s@),
        r matches Ok(b) ==> b@.len() == s@.len() / 2 && (forall|i: int|
            0 <= i < b@.len() ==> (#[trigger] b@[i]) == hex_byte(s@, i)),
        r matches Err(e) ==> e is Decode,
{
    hex::decode(s).map_err(|e| Error::Decode { detail: format!("{:?}", e) })
}

/// The string with every leading `0x` pair removed.
pub open spec fn strip_0x(s: Seq<char>) -> Seq<char>
    decreases s.len(),
{
    if s.len() >= 2 && s[0] == '0' && s[1] == 'x' {
        strip_0x(s.skip(2))
    } else {
        s
    }
}

/// Removes every leading `0x` pair, as a denom key or address literal
/// is written with one.
pub fn trim_0x(s: &str) -> (r: &str)
    ensures
        r@ == strip_0x(s@),
{
    let mut t = s;
    let mut n = t.unicode_len();
    while n >= 2
        invariant
            n == t@.len(),
            strip_0x(s@) == strip_0x(t@),
        decreases n,
    {
        if t.get_char(0) == '0' && t.get_char(1) == 'x' {
            let rest = t.substring_char(2, n);
            proof {
                assert(rest@ =~= t@.skip(2));
            }
            t = rest;
            n = n - 2;
        } else {
            proof {
                assert(strip_0x(t@) == t@);
            }
            return t;
        }
    }
    proof {
        assert(strip_0x(t@) == t@);
    }
    t
}

/// The byte length of a contract-account address.
pub const ADDRESS_BYTES: usize = 20;

/// Parses a hex-written contract-account address, with or without a
/// leading `0x`: it must decode as hex and name exactly the address
/// width, else the answer is a decode failure.
pub fn parse_eth_address(text: &str) -> (r: Result<Vec<u8>, Error>)
    ensures
        ({
            let t = strip_0x(text@);
            &&& (hex_decodes(t) && t.len() == 2 * ADDRESS_BYTES ==> (r matches Ok(b)
                && b@.len() == ADDRESS_BYTES && (forall|i: int|
                0 <= i < b@.len() ==> (#[trigger] b@[i]) == hex_byte(t, i))))
            &&& (!(hex_decodes(t) && t.len() == 2 * ADDRESS_BYTES) ==> (r matches Err(e)
                && e is Decode))
        }),
{
    let trimmed = trim_0x(text);
    match hex_decode(trimmed) {
        Ok(bytes) => {
            if bytes.len() != ADDRESS_BYTES {
                return Err(
                    Error::Decode { detail: "address is not twenty bytes".to_owned() },
                );
            }
            Ok(bytes)
        },
        Err(e) => Err(e),
    }
}


/// A character an identifier may hold: alphanumerics and the small
/// punctuation set the protocol's identifier format allows.
pub open spec fn valid_ident_char(c: char) -> bool {
    ('a' <= c <= 'z') || ('A' <= c <= 'Z') || ('0' <= c <= '9') || c == '.' || c == '_' || c == '+'
        || c == '-' || c == '#' || c == '[' || c == ']' || c == '<' || c == '>'
}

/// A well-formed identifier of a given length range: every character
/// allowed, length within the range.
pub open spec fn valid_identifier(s: Seq<char>, min: int, max: int) -> bool {
    min <= s.len() <= max && (forall|i: int| 0 <= i < s.len() ==> valid_ident_char(#[trigger] s[i]))
}

/// The shortest and longest connection identifiers the protocol's
/// identifier format allows.
pub const CONNECTION_ID_MIN: usize = 10;

pub const CONNECTION_ID_MAX: usize = 64;

/// Checks one identifier against the allowed characters and a length
/// range.
pub fn is_valid_identifier(s: &str, min: usize, max: usize) -> (r: bool)
    ensures
        r == valid_identifier(s@, min as int, max as int),
{
    let n = s.unicode_len();
    if n < min || n > max {
        return false;
    }
    let mut i: usize = 0;
    while i < n
        invariant
            0 <= i <= n,
            n == s@.len(),
            forall|k: int| 0 <= k < i ==> valid_ident_char(#[trigger] s@[k]),
        decreases n - i,
    {
        let c = s.get_char(i);
        let ok = ('a' <= c && c <= 'z') || ('A' <= c && c <= 'Z') || ('0' <= c && c <= '9') || c
            == '.' || c == '_' || c == '+' || c == '-' || c == '#' || c == '[' || c == ']' || c
            == '<' || c == '>';
        if !ok {
            return false;
        }
        i = i + 1;
    }
    true
}

/// Validates the connection identifiers a client-connections query
/// answered with: every one must be well formed, or the whole answer is
/// a decode failure.
pub fn parse_connection_ids(ids: Vec<String>) -> (r: Result<Vec<String>, Error>)
    ensures
        (forall|k: int|
            0 <= k < ids@.len() ==> valid_identifier(
                (#[trigger] ids@[k])@,
                CONNECTION_ID_MIN as int,
                CONNECTION_ID_MAX as int,
            )) <==> r is Ok,
        r matches Ok(v) ==> v == ids,
        r matches Err(e) ==> e is Decode,
{
    let mut i: usize = 0;
    while i < ids.len()
        invariant
            0 <= i <= ids@.len(),
            forall|k: int|
                0 <= k < i ==> valid_identifier(
                    (#[trigger] ids@[k])@,
                    CONNECTION_ID_MIN as int,
                    CONNECTION_ID_MAX as int,
                ),
        decreases ids@.len() - i,
    {
        if !is_valid_identifier(ids[i].as_str(), CONNECTION_ID_MIN, CONNECTION_ID_MAX) {
            return Err(Error::Decode { detail: "malformed connection identifier".to_owned() });
        }
        i = i + 1;
    }
    Ok(ids)
}


/// The byte length of a denom-trace hash.
pub const HASH_BYTES: usize = 32;

/// The string with every leading `ibc/` prefix removed, as a denom
/// hash is written under that namespace.
pub open spec fn strip_ibc(s: Seq<char>) -> Seq<char>
    decreases s.len(),
{
    if s.len() >= 4 && s[0] == 'i' && s[1] == 'b' && s[2] == 'c' && s[3] == '/' {
        strip_ibc(s.skip(4))
    } else {
        s
    }
}

/// Removes every leading `ibc/` prefix.
pub fn trim_ibc(s: &str) -> (r: &str)
    ensures
        r@ == strip_ibc(s@),
{
    let mut t = s;
    let mut n = t.unicode_len();
    while n >= 4
        invariant
            n == t@.len(),
            strip_ibc(s@) == strip_ibc(t@),
        decreases n,
    {
        let hit = t.get_char(0) == 'i' && t.get_char(1) == 'b' && t.get_char(2) == 'c'
            && t.get_char(3) == '/';
        if hit {
            let rest = t.substring_char(4, n);
            proof {
                assert(rest@ =~= t@.skip(4));
            }
            t = rest;
            n = n - 4;
        } else {
            proof {
                assert(strip_ibc(t@) == t@);
            }
            return t;
        }
    }
    proof {
        assert(strip_ibc(t@) == t@);
    }
    t
}

/// Parses a denom-trace hash key, written as `ibc/` followed by the
/// hash in hex: it must decode as hex and name exactly the hash width,
/// else the answer is a decode failure.
pub fn parse_denom_hash(text: &str) -> (r: Result<Vec<u8>, Error>)
    ensures
        ({
            let t = strip_ibc(text@);
            &&& (hex_decodes(t) && t.len() == 2 * HASH_BYTES ==> (r matches Ok(b)
                && b@.len() == HASH_BYTES && (forall|i: int|
                0 <= i < b@.len() ==> (#[trigger] b@[i]) == hex_byte(t, i))))
            &&& (!(hex_decodes(t) && t.len() == 2 * HASH_BYTES) ==> (r matches Err(e)
                && e is Decode))
        }),
{
    let trimmed = trim_ibc(text);
    match hex_decode(trimmed) {
        Ok(bytes) => {
            if bytes.len() != HASH_BYTES {
                return Err(
                    Error::Decode { detail: "denom hash is not thirty-two bytes".to_owned() },
                );
            }
            Ok(bytes)
        },
        Err(e) => Err(e),
    }
}

} // verus!
