use croque::segment::duration::format_duration;

#[test]
fn duration_buckets_match_their_boundaries() {
    // the boundary values, exact
    assert_eq!(format_duration(0), "0\u{3bc}s");
    assert_eq!(format_duration(500_000), "500\u{3bc}s");
    assert_eq!(format_duration(59_940_000_000), "59.9s");
    assert_eq!(format_duration(59_950_000_000), "1m 0s");
    assert_eq!(format_duration(3_599_400_000_000), "59m 59s");
    assert_eq!(format_duration(3_599_500_000_000), "1h 0m 0s");
    assert_eq!(format_duration(45_525_000_000_000), "12h 38m 45s");
}

#[test]
fn duration_buckets_round_as_displayed() {
    assert_eq!(format_duration(1_414_213_000), "1.41s");
    assert_eq!(format_duration(2_236_000_000), "2.24s");
    assert_eq!(format_duration(567_800_000), "568ms");
    assert_eq!(format_duration(56_780_000), "56.8ms");
    assert_eq!(format_duration(5_678_000), "5.68ms");
    assert_eq!(format_duration(567_800), "568\u{3bc}s");
    assert_eq!(format_duration(56_780), "57\u{3bc}s");
    assert_eq!(format_duration(5_678), "6\u{3bc}s");
    assert_eq!(format_duration(512), "1\u{3bc}s");
    assert_eq!(format_duration(499), "0\u{3bc}s");
    assert_eq!(format_duration(92_300_000_000), "1m 32s");
}
