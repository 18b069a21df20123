//! The commitment path encoder: the canonical string key under which a
//! piece of protocol state lives in the chain's state tree.
//!
//! Connection state lives under `connections/<id>`, channel state under
//! `channelEnds/ports/<port>/channels/<channel>`, packet commitments
//! under `commitments/ports/<port>/channels/<channel>/sequences/<seq>`,
//! and acknowledgement commitments under the same shape rooted at
//! `acks`.

use vstd::prelude::*;

verus! {

/// The character for one decimal digit.
pub open spec fn digit_char(d: int) -> char {
    if d == 0 {
        '0'
    } else if d == 1 {
        '1'
    } else if d == 2 {
        '2'
    } else if d == 3 {
        '3'
    } else if d == 4 {
        '4'
    } else if d == 5 {
        '5'
    } else if d == 6 {
        '6'
    } else if d == 7 {
        '7'
    } else if d == 8 {
        '8'
    } else {
        '9'
    }
}

/// The decimal rendering of a number, most significant digit first.
pub open spec fn dec_of(n: int) -> Seq<char>
    decreases n,
{
    if n < 10 {
        seq![digit_char(n)]
    } else {
        dec_of(n / 10).push(digit_char(n % 10))
    }
}

/// One decimal digit as a string slice.
fn digit_str(d: u64) -> (r: &'static str)
    requires
        d < 10,
    ensures
        r@ == seq![digit_char(d as int)],
{
    proof {
        reveal_strlit("0");
        reveal_strlit("1");
        reveal_strlit("2");
        reveal_strlit("3");
        reveal_strlit("4");
        reveal_strlit("5");
        reveal_strlit("6");
        reveal_strlit("7");
        reveal_strlit("8");
        reveal_strlit("9");
        assert("0"@ =~= seq!['0']);
        assert("1"@ =~= seq!['1']);
        assert("2"@ =~= seq!['2']);
        assert("3"@ =~= seq!['3']);
        assert("4"@ =~= seq!['4']);
        assert("5"@ =~= seq!['5']);
        assert("6"@ =~= seq!['6']);
        assert("7"@ =~= seq!['7']);
        assert("8"@ =~= seq!['8']);
        assert("9"@ =~= seq!['9']);
    }
    if d == 0 {
        "0"
    } else if d == 1 {
        "1"
    } else if d == 2 {
        "2"
    } else if d == 3 {
        "3"
    } else if d == 4 {
        "4"
    } else if d == 5 {
        "5"
    } else if d == 6 {
        "6"
    } else if d == 7 {
        "7"
    } else if d == 8 {
        "8"
    } else {
        "9"
    }
}

/// Renders a number in decimal, exactly as `dec_of` spells it.
pub fn u64_dec_str(n: u64) -> (r: String)
    ensures
        r@ == dec_of(n as int),
    decreases n,
{
    if n < 10 {
        digit_str(n).to_owned()
    } else {
        let mut s = u64_dec_str(n / 10);
        s.append(digit_str(n % 10));
        proof {
            assert(dec_of((n / 10) as int) + seq![digit_char((n % 10) as int)] =~= dec_of(
                n as int,
            ));
        }
        s
    }
}

/// The path of a connection end's state.
pub open spec fn connection_path_spec(connection_id: Seq<char>) -> Seq<char> {
    "connections/"@ + connection_id
}

/// The path of a channel end's state.
pub open spec fn channel_path_spec(port_id: Seq<char>, channel_id: Seq<char>) -> Seq<char> {
    "channelEnds/ports/"@ + port_id + "/channels/"@ + channel_id
}

/// The path of a packet commitment.
pub open spec fn packet_commitment_path_spec(
    port_id: Seq<char>,
    channel_id: Seq<char>,
    sequence: u64,
) -> Seq<char> {
    "commitments/ports/"@ + port_id + "/channels/"@ + channel_id + "/sequences/"@ + dec_of(
        sequence as int,
    )
}

/// The path of a packet acknowledgement commitment.
pub open spec fn packet_acknowledgement_path_spec(
    port_id: Seq<char>,
    channel_id: Seq<char>,
    sequence: u64,
) -> Seq<char> {
    "acks/ports/"@ + port_id + "/channels/"@ + channel_id + "/sequences/"@ + dec_of(
        sequence as int,
    )
}

/// Encodes the commitment path of a connection end.
pub fn connection_path(connection_id: &str) -> (r: String)
    ensures
        r@ == connection_path_spec(connection_id@),
{
    let mut s = "connections/".to_owned();
    s.append(connection_id);
    s
}

/// Encodes the commitment path of a channel end.
pub fn channel_path(port_id: &str, channel_id: &str) -> (r: String)
    ensures
        r@ == channel_path_spec(port_id@, channel_id@),
{
    let mut s = "channelEnds/ports/".to_owned();
    s.append(port_id);
    s.append("/channels/");
    s.append(channel_id);
    s
}

/// Encodes the commitment path of a packet commitment.
pub fn packet_commitment_path(port_id: &str, channel_id: &str, sequence: u64) -> (r: String)
    ensures
        r@ == packet_commitment_path_spec(port_id@, channel_id@, sequence),
{
    let mut s = "commitments/ports/".to_owned();
    s.append(port_id);
    s.append("/channels/");
    s.append(channel_id);
    s.append("/sequences/");
    let seq_str = u64_dec_str(sequence);
    s.append(seq_str.as_str());
    s
}

/// Encodes the commitment path of a packet acknowledgement commitment.
pub fn packet_acknowledgement_commitment_path(port_id: &str, channel_id: &str, sequence: u64) -> (r:
    String)
    ensures
        r@ == packet_acknowledgement_path_spec(port_id@, channel_id@, sequence),
{
    let mut s = "acks/ports/".to_owned();
    s.append(port_id);
    s.append("/channels/");
    s.append(channel_id);
    s.append("/sequences/");
    let seq_str = u64_dec_str(sequence);
    s.append(seq_str.as_str());
    s
}

} // verus!
