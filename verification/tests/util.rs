use ckb_scenarios::util::{
    any_cites, committed_blocks, decode_since, is_lock_elapsed, median_blocks, median_of,
    since_from_relative_timestamp, text_contains, Since, SinceMetric, SINCE_PAYLOAD_MASK,
};

#[test]
fn since_of_two_seconds() {
    assert_eq!(since_from_relative_timestamp(2), 0xc000_0000_0000_0002);
    assert_eq!(since_from_relative_timestamp(0), 0xc000_0000_0000_0000);
}

#[test]
fn since_round_trip() {
    for seconds in [0u64, 1, 2, 59, 1 << 32, SINCE_PAYLOAD_MASK] {
        assert_eq!(
            decode_since(since_from_relative_timestamp(seconds)),
            Some(Since { relative: true, metric: SinceMetric::Timestamp, payload: seconds })
        );
    }
}

#[test]
fn since_decodes_every_metric() {
    assert_eq!(
        decode_since(100),
        Some(Since { relative: false, metric: SinceMetric::BlockNumber, payload: 100 })
    );
    assert_eq!(
        decode_since(0xa000_0000_0000_0007),
        Some(Since { relative: true, metric: SinceMetric::EpochNumber, payload: 7 })
    );
    assert_eq!(
        decode_since(0x4000_0000_0000_0007),
        Some(Since { relative: false, metric: SinceMetric::Timestamp, payload: 7 })
    );
}

#[test]
fn since_with_reserved_bits_is_invalid() {
    assert_eq!(decode_since(0x0100_0000_0000_0000), None);
    assert_eq!(decode_since(0x6000_0000_0000_0000), None);
    assert_eq!(decode_since(u64::MAX), None);
    // A payload wider than 56 bits spills into the reserved bits.
    assert_eq!(decode_since(since_from_relative_timestamp(SINCE_PAYLOAD_MASK + 1)), None);
}

#[test]
fn lock_runs_out_at_start_plus_millis() {
    assert!(!is_lock_elapsed(10_000, 2, 11_999));
    assert!(is_lock_elapsed(10_000, 2, 12_000));
    assert!(is_lock_elapsed(10_000, 2, 12_001));
    assert!(is_lock_elapsed(5, 0, 5));
    assert!(!is_lock_elapsed(5, 0, 4));
    assert!(!is_lock_elapsed(u64::MAX, u64::MAX, u64::MAX));
    assert!(!is_lock_elapsed(0, u64::MAX / 1000 + 1, u64::MAX));
    assert!(is_lock_elapsed(615, u64::MAX / 1000, u64::MAX));
}

#[test]
fn text_search() {
    assert!(text_contains("BlockIsInvalid(401)", "BlockIsInvalid(401)"));
    assert!(text_contains("peer banned: BlockIsInvalid(401) at 12", "BlockIsInvalid(401)"));
    assert!(!text_contains("BlockIsInvalid(40", "BlockIsInvalid(401)"));
    assert!(!text_contains("BlockIsInvalid(402)", "BlockIsInvalid(401)"));
    assert!(text_contains("anything", ""));
    assert!(text_contains("", ""));
    assert!(!text_contains("", "a"));
    assert!(text_contains("aab", "ab"));
    assert!(text_contains("h\u{e9}llo w\u{f6}rld", "w\u{f6}r"));
    assert!(!text_contains("abc", "abcd"));
}

#[test]
fn some_reason_cites_the_sentinel() {
    let reasons = vec!["too many peers".to_string(), "BlockIsInvalid(401): since".to_string()];
    assert!(any_cites(&reasons, "BlockIsInvalid(401)"));
    assert!(!any_cites(&reasons, "BlockIsInvalid(402)"));
    assert!(!any_cites(&Vec::new(), "BlockIsInvalid(401)"));
    assert!(!any_cites(&Vec::new(), ""));
}

#[test]
fn median_is_the_middle_of_the_sorted_values() {
    assert_eq!(median_of(&vec![]), None);
    assert_eq!(median_of(&vec![7]), Some(7));
    assert_eq!(median_of(&vec![3, 1, 2]), Some(2));
    assert_eq!(median_of(&vec![4, 1, 3, 2]), Some(3));
    assert_eq!(median_of(&vec![5, 5, 1, 9, 5]), Some(5));
    assert_eq!(median_of(&vec![u64::MAX, 0]), Some(u64::MAX));
    let window: Vec<u64> = (0..37).map(|k| 1_000 * ((k * 7) % 37)).collect();
    assert_eq!(median_of(&window), Some(18_000));
}

#[test]
fn median_and_committed_windows() {
    assert_eq!(median_blocks(100, 37), Some((63, 99)));
    assert_eq!(committed_blocks(100, 37), Some((64, 100)));
    assert_eq!(median_blocks(37, 37), Some((0, 36)));
    assert_eq!(committed_blocks(36, 37), Some((0, 36)));
    assert_eq!(committed_blocks(37, 37), Some((1, 37)));
    assert_eq!(median_blocks(5, 37), Some((0, 4)));
    assert_eq!(committed_blocks(5, 37), Some((0, 5)));
    assert_eq!(median_blocks(0, 37), None);
    assert_eq!(committed_blocks(0, 37), Some((0, 0)));
    assert_eq!(median_blocks(9, 0), None);
    assert_eq!(committed_blocks(9, 0), None);
    assert_eq!(median_blocks(u64::MAX, 1), Some((u64::MAX - 1, u64::MAX - 1)));
    assert_eq!(committed_blocks(u64::MAX, u64::MAX), Some((1, u64::MAX)));
}
