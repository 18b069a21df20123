use relayer_adapter::commitment::{
    channel_path, connection_path, packet_acknowledgement_commitment_path, packet_commitment_path,
    u64_dec_str,
};
use relayer_adapter::error::Error;
use relayer_adapter::height::{block_for_query_height, block_range_for, Height, Qualified, QueryHeight};
use relayer_adapter::queries::{
    application_status, commitment_prefix, heights_from_pairs, packet_acknowledgement_response,
    packet_commitment_response, packet_receipt_response, parse_connection_ids, parse_eth_address,
    parse_denom_hash, to_timestamp, trim_0x, unreceived_ordered, unreceived_unordered,
    sequences_with_flag, BlockHead, IncludeProof,
};

#[test]
fn decimal_rendering() {
    assert_eq!(u64_dec_str(0), "0");
    assert_eq!(u64_dec_str(8), "8");
    assert_eq!(u64_dec_str(1234567890), "1234567890");
    assert_eq!(u64_dec_str(u64::MAX), "18446744073709551615");
}

#[test]
fn commitment_paths_follow_the_canonical_shapes() {
    assert_eq!(connection_path("connection-0"), "connections/connection-0");
    assert_eq!(
        channel_path("transfer", "channel-0"),
        "channelEnds/ports/transfer/channels/channel-0"
    );
    assert_eq!(
        packet_commitment_path("transfer", "channel-0", 5),
        "commitments/ports/transfer/channels/channel-0/sequences/5"
    );
    assert_eq!(
        packet_acknowledgement_commitment_path("transfer", "channel-0", 5),
        "acks/ports/transfer/channels/channel-0/sequences/5"
    );
}

#[test]
fn missing_packet_commitment_is_not_found() {
    // A packet-commitment query for (port "transfer", channel
    // "channel-0", sequence 5) whose commitment does not exist answers
    // not-found, not an error of any other kind.
    let _path = packet_commitment_path("transfer", "channel-0", 5);
    let r = packet_commitment_response(vec![], false, IncludeProof::No);
    assert!(matches!(r, Err(Error::NotFound)));
}

#[test]
fn present_packet_commitment_returns_bytes_without_proof() {
    let commitment = vec![0x11u8; 32];
    let (bytes, proof) =
        packet_commitment_response(commitment.clone(), true, IncludeProof::No).unwrap();
    assert_eq!(bytes, commitment);
    assert!(proof.is_none());
}

#[test]
fn acknowledgement_commitment_mirrors_packet_commitment() {
    assert!(matches!(
        packet_acknowledgement_response(vec![], false, IncludeProof::No),
        Err(Error::NotFound)
    ));
    let (bytes, proof) = packet_acknowledgement_response(vec![5u8], true, IncludeProof::No).unwrap();
    assert_eq!(bytes, vec![5u8]);
    assert!(proof.is_none());
}

#[test]
fn receipt_presence_is_a_marker_byte() {
    let (present, _) = packet_receipt_response(true);
    assert_eq!(present, vec![1u8]);
    let (absent, proof) = packet_receipt_response(false);
    assert!(absent.is_empty());
    assert!(proof.is_none());
}

#[test]
fn ordered_channel_keeps_sequences_not_yet_received() {
    let out = unreceived_ordered(&vec![1, 4, 5, 9], 5);
    assert_eq!(out, vec![5, 9]);
}

#[test]
fn unordered_channel_keeps_sequences_without_receipt() {
    let out = unreceived_unordered(&vec![(1, true), (2, false), (3, false), (4, true)]);
    assert_eq!(out, vec![2, 3]);
}

#[test]
fn flagged_sequences_are_kept_in_order() {
    let out = sequences_with_flag(&vec![(7, true), (8, false), (9, true)]);
    assert_eq!(out, vec![7, 9]);
}

#[test]
fn consensus_heights_convert_pairwise() {
    let hs = heights_from_pairs(&vec![(0, 3), (1, 9)]).unwrap();
    assert_eq!(hs.len(), 2);
    assert_eq!(hs[0], Height { revision_number: 0, revision_height: 3 });
    assert_eq!(hs[1], Height { revision_number: 1, revision_height: 9 });
}

#[test]
fn zero_revision_height_fails_the_whole_answer() {
    assert!(matches!(
        heights_from_pairs(&vec![(0, 3), (0, 0)]),
        Err(Error::InvalidHeight)
    ));
}

#[test]
fn timestamps_scale_to_nanoseconds() {
    assert_eq!(to_timestamp(5).unwrap(), 5_000_000_000);
    assert!(matches!(to_timestamp(u64::MAX), Err(Error::Decode { .. })));
}

#[test]
fn status_uses_the_tip_block() {
    let s = application_status(Some(BlockHead { number: Some(7), timestamp_secs: 3 }), 999)
        .unwrap();
    assert_eq!(s.height.revision_height, 7);
    assert_eq!(s.timestamp_ns, 3_000_000_000);
}

#[test]
fn status_without_tip_uses_the_clock_and_sentinel() {
    let s = application_status(None, 999).unwrap();
    assert_eq!(s.height, Height { revision_number: 0, revision_height: 0 });
    assert!(s.height.is_zero());
    assert_eq!(s.timestamp_ns, 999);
}

#[test]
fn pending_tip_block_uses_the_sentinel_height() {
    let s = application_status(Some(BlockHead { number: None, timestamp_secs: 1 }), 0).unwrap();
    assert!(s.height.is_zero());
}

#[test]
fn empty_store_prefix_is_refused() {
    assert!(matches!(commitment_prefix(""), Err(Error::Decode { .. })));
    assert_eq!(commitment_prefix("ibc").unwrap(), b"ibc".to_vec());
}

#[test]
fn address_parsing_strips_the_prefix_and_checks_width() {
    let hexpart = "00112233445566778899aabbccddeeff00112233";
    let with_prefix = format!("0x{hexpart}");
    let parsed = parse_eth_address(&with_prefix).unwrap();
    assert_eq!(parsed.len(), 20);
    assert_eq!(parsed[0], 0x00);
    assert_eq!(parsed[1], 0x11);
    assert_eq!(parsed[19], 0x33);
    let parsed_bare = parse_eth_address(hexpart).unwrap();
    assert_eq!(parsed, parsed_bare);
}

#[test]
fn address_of_the_wrong_width_is_refused() {
    assert!(matches!(parse_eth_address("0xabcd"), Err(Error::Decode { .. })));
    assert!(matches!(parse_eth_address("0xzz"), Err(Error::Decode { .. })));
}

#[test]
fn repeated_prefixes_are_all_stripped() {
    assert_eq!(trim_0x("0x0xab"), "ab");
    assert_eq!(trim_0x("ab"), "ab");
    assert_eq!(trim_0x("0x"), "");
}

#[test]
fn query_heights_scope_calls() {
    assert_eq!(block_for_query_height(QueryHeight::Latest), None);
    assert_eq!(
        block_for_query_height(QueryHeight::Specific(Height {
            revision_number: 0,
            revision_height: 12
        })),
        Some(12)
    );
    let h = Height { revision_number: 0, revision_height: 12 };
    assert_eq!(block_range_for(Qualified::Equal(QueryHeight::Specific(h))), (Some(12), Some(12)));
    assert_eq!(
        block_range_for(Qualified::SmallerEqual(QueryHeight::Specific(h))),
        (None, Some(12))
    );
    assert_eq!(block_range_for(Qualified::Equal(QueryHeight::Latest)), (None, None));
}

#[test]
fn connection_identifiers_are_validated() {
    let good = vec![String::from("connection-0"), String::from("connection-42")];
    assert_eq!(parse_connection_ids(good.clone()).unwrap(), good);
    let bad = vec![String::from("connection-0"), String::from("bad id")];
    assert!(matches!(parse_connection_ids(bad), Err(Error::Decode { .. })));
    let short = vec![String::from("conn")];
    assert!(matches!(parse_connection_ids(short), Err(Error::Decode { .. })));
}

#[test]
fn denom_hash_keys_parse_under_their_namespace() {
    let hex64 = "00112233445566778899aabbccddeeff00112233445566778899aabbccddeeff";
    let key = format!("ibc/{hex64}");
    let parsed = parse_denom_hash(&key).unwrap();
    assert_eq!(parsed.len(), 32);
    assert_eq!(parsed[31], 0xff);
    assert_eq!(parse_denom_hash(hex64).unwrap(), parsed);
    assert!(matches!(parse_denom_hash("ibc/abcd"), Err(Error::Decode { .. })));
}
