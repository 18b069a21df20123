use relayer_adapter::denom::{
    denom_trace_from_lookup, extract_path_and_base_from_full_denom, full_denom,
    is_valid_channel_id, join_slash, parse_denom_trace, split_slash, DenomTrace,
};
use relayer_adapter::error::Error;

#[test]
fn single_segment_denom_is_all_base() {
    let t = parse_denom_trace(String::from("uatom")).unwrap();
    assert_eq!(t.path, "");
    assert_eq!(t.base_denom, "uatom");
}

#[test]
fn empty_denom_is_all_base() {
    let t = parse_denom_trace(String::new()).unwrap();
    assert_eq!(t.path, "");
    assert_eq!(t.base_denom, "");
}

#[test]
fn three_segment_denom_splits_port_channel_pair() {
    let t = parse_denom_trace(String::from("transfer/channel-0/uatom")).unwrap();
    assert_eq!(t.path, "transfer/channel-0");
    assert_eq!(t.base_denom, "uatom");
}

#[test]
fn two_segment_denom_stays_base() {
    // With only two segments the extraction loop never starts a pair.
    let t = parse_denom_trace(String::from("transfer/channel-0")).unwrap();
    assert_eq!(t.path, "");
    assert_eq!(t.base_denom, "transfer/channel-0");
}

#[test]
fn invalid_channel_segment_stays_base() {
    let t = parse_denom_trace(String::from("transfer/chan-0/uatom")).unwrap();
    assert_eq!(t.path, "");
    assert_eq!(t.base_denom, "transfer/chan-0/uatom");
}

#[test]
fn two_hop_denom_splits_both_pairs() {
    let t = parse_denom_trace(String::from("transfer/channel-11/port/channel-2/stake")).unwrap();
    assert_eq!(t.path, "transfer/channel-11/port/channel-2");
    assert_eq!(t.base_denom, "stake");
}

#[test]
fn base_with_slash_after_path_stays_whole() {
    let t = parse_denom_trace(String::from("transfer/channel-0/gamm/pool/1")).unwrap();
    assert_eq!(t.path, "transfer/channel-0");
    assert_eq!(t.base_denom, "gamm/pool/1");
}

#[test]
fn round_trip_single_segment() {
    let trace = DenomTrace { path: String::new(), base_denom: String::from("uatom") };
    let full = full_denom(&trace);
    assert_eq!(full, "uatom");
    let back = parse_denom_trace(full).unwrap();
    assert_eq!(back.path, "");
    assert_eq!(back.base_denom, "uatom");
}

#[test]
fn round_trip_multi_segment() {
    let trace = DenomTrace {
        path: String::from("transfer/channel-0"),
        base_denom: String::from("uatom"),
    };
    let full = full_denom(&trace);
    assert_eq!(full, "transfer/channel-0/uatom");
    let back = parse_denom_trace(full).unwrap();
    assert_eq!(back.path, "transfer/channel-0");
    assert_eq!(back.base_denom, "uatom");
}

#[test]
fn round_trip_empty_base() {
    let trace = DenomTrace {
        path: String::from("transfer/channel-7"),
        base_denom: String::new(),
    };
    let full = full_denom(&trace);
    assert_eq!(full, "transfer/channel-7/");
    let back = parse_denom_trace(full).unwrap();
    assert_eq!(back.path, "transfer/channel-7");
    assert_eq!(back.base_denom, "");
}

#[test]
fn valid_channel_identifiers() {
    assert!(is_valid_channel_id("channel-0"));
    assert!(is_valid_channel_id("channel-42"));
    assert!(is_valid_channel_id("channel-000001"));
    assert!(is_valid_channel_id("channel-18446744073709551615"));
}

#[test]
fn invalid_channel_identifiers() {
    assert!(!is_valid_channel_id("channel-"));
    assert!(!is_valid_channel_id("channel-x"));
    assert!(!is_valid_channel_id("chan-0"));
    assert!(!is_valid_channel_id("channel-1x"));
    assert!(!is_valid_channel_id(""));
    // One past the largest value a 64-bit word holds.
    assert!(!is_valid_channel_id("channel-18446744073709551616"));
}

#[test]
fn split_and_join_are_inverse_on_examples() {
    let parts = split_slash("a/b//c");
    let views: Vec<&str> = parts.iter().map(|s| s.as_str()).collect();
    assert_eq!(views, vec!["a", "b", "", "c"]);
    assert_eq!(join_slash(&parts), "a/b//c");

    let parts = split_slash("");
    assert_eq!(parts.len(), 1);
    assert_eq!(parts[0], "");
}

#[test]
fn extract_keeps_segment_order() {
    let parts = vec![
        String::from("transfer"),
        String::from("channel-3"),
        String::from("uosmo"),
    ];
    let (path, base) = extract_path_and_base_from_full_denom(parts);
    assert_eq!(path, "transfer/channel-3");
    assert_eq!(base, "uosmo");
}

#[test]
fn empty_lookup_answer_is_empty_trace_error() {
    let r = denom_trace_from_lookup(String::from("ibc/ABCD"), String::new());
    match r {
        Err(Error::EmptyDenomTrace { hash }) => assert_eq!(hash, "ibc/ABCD"),
        _ => panic!("expected the empty-trace error"),
    }
}

#[test]
fn nonempty_lookup_answer_is_parsed() {
    let r = denom_trace_from_lookup(
        String::from("ibc/ABCD"),
        String::from("transfer/channel-0/uatom"),
    );
    let t = r.unwrap();
    assert_eq!(t.path, "transfer/channel-0");
    assert_eq!(t.base_denom, "uatom");
}
