use radarflow::pattern::{find, parse_pattern, pattern_scan, ScanError};

#[test]
fn parse_pattern_reads_bytes_and_wildcards() {
    assert_eq!(parse_pattern("48 ?? 8B"), Some(vec![Some(0x48), None, Some(0x8B)]));
    assert_eq!(parse_pattern("00 ff FF aB"), Some(vec![Some(0), Some(255), Some(255), Some(0xAB)]));
    assert_eq!(parse_pattern("??"), Some(vec![None]));
}

#[test]
fn parse_pattern_takes_any_white_space_between_tokens() {
    assert_eq!(parse_pattern("  48\t83 \n EC\r\n28  "), Some(vec![
        Some(0x48),
        Some(0x83),
        Some(0xEC),
        Some(0x28),
    ]));
    assert_eq!(parse_pattern("48\u{000c}83"), Some(vec![Some(0x48), Some(0x83)]));
}

#[test]
fn parse_pattern_of_nothing_is_the_empty_pattern() {
    assert_eq!(parse_pattern(""), Some(vec![]));
    assert_eq!(parse_pattern("   \t\n"), Some(vec![]));
}

#[test]
fn parse_pattern_refuses_malformed_tokens() {
    assert_eq!(parse_pattern("4"), None);
    assert_eq!(parse_pattern("488"), None);
    assert_eq!(parse_pattern("4G"), None);
    assert_eq!(parse_pattern("?"), None);
    assert_eq!(parse_pattern("???"), None);
    assert_eq!(parse_pattern("?8"), None);
    assert_eq!(parse_pattern("48 8"), None);
    assert_eq!(parse_pattern("0x48"), None);
    assert_eq!(parse_pattern("48,83"), None);
    assert_eq!(parse_pattern("48 zz 83"), None);
    assert_eq!(parse_pattern("48\u{000b}83"), None);
}

#[test]
fn find_answers_the_first_occurrence() {
    let image = [1u8, 2, 3, 1, 2, 3, 4];
    assert_eq!(find(&image, &[Some(1), Some(2)]), Some(0));
    assert_eq!(find(&image, &[Some(2), Some(3), Some(4)]), Some(4));
    assert_eq!(find(&image, &[Some(4)]), Some(6));
    assert_eq!(find(&image, &[Some(3), Some(1)]), Some(2));
}

#[test]
fn find_lets_wildcards_stand_for_any_byte() {
    let image = [9u8, 1, 7, 3, 1, 8, 3];
    assert_eq!(find(&image, &[Some(1), None, Some(3)]), Some(1));
    assert_eq!(find(&image, &[None, Some(8)]), Some(4));
    assert_eq!(find(&image, &[None]), Some(0));
    assert_eq!(find(&image, &[None, None, None, None, None, None, None]), Some(0));
}

#[test]
fn find_answers_none_where_the_pattern_stands_nowhere() {
    let image = [1u8, 2, 3];
    assert_eq!(find(&image, &[Some(4)]), None);
    assert_eq!(find(&image, &[Some(3), Some(1)]), None);
    assert_eq!(find(&image, &[Some(1), Some(2), Some(3), Some(4)]), None);
    assert_eq!(find(&image, &[None, None, None, None]), None);
    assert_eq!(find(&[], &[Some(1)]), None);
}

#[test]
fn find_of_the_empty_pattern_is_the_start() {
    assert_eq!(find(&[1u8, 2, 3], &[]), Some(0));
    assert_eq!(find(&[], &[]), Some(0));
}

#[test]
fn pattern_scan_answers_an_absolute_address() {
    let image = [0x90u8, 0x90, 0x48, 0x83, 0xEC, 0x28, 0x90];
    assert_eq!(pattern_scan(&image, 0x7ff6_0000_0000, "48 83 ?? 28"), Ok(Some(0x7ff6_0000_0002)));
    assert_eq!(pattern_scan(&image, 0, "90"), Ok(Some(0)));
    assert_eq!(pattern_scan(&image, 0x1000, "90 48"), Ok(Some(0x1001)));
}

#[test]
fn pattern_scan_tells_a_miss_from_a_malformed_pattern() {
    let image = [0x90u8, 0x90, 0x48];
    assert_eq!(pattern_scan(&image, 0x1000, "48 83"), Ok(None));
    assert_eq!(pattern_scan(&image, 0x1000, "48 8"), Err(ScanError::Malformed));
    assert_eq!(pattern_scan(&image, 0x1000, "hello"), Err(ScanError::Malformed));
}

#[test]
fn pattern_scan_works_at_the_top_of_the_address_space() {
    let image = [1u8, 2, 3];
    assert_eq!(pattern_scan(&image, u64::MAX - 3, "03"), Ok(Some(u64::MAX - 1)));
}
