use batch_hasher::metrics::statm_resident_kb;
use batch_hasher::numbers::parse_u64;

#[test]
fn parses_plain_decimals() {
    assert_eq!(parse_u64("0"), Some(0));
    assert_eq!(parse_u64("7"), Some(7));
    assert_eq!(parse_u64("007"), Some(7));
    assert_eq!(parse_u64("123456"), Some(123456));
}

#[test]
fn parses_a_single_leading_plus() {
    assert_eq!(parse_u64("+5"), Some(5));
    assert_eq!(parse_u64("+"), None);
    assert_eq!(parse_u64("++5"), None);
}

#[test]
fn rejects_non_numeric_input() {
    assert_eq!(parse_u64(""), None);
    assert_eq!(parse_u64("abc"), None);
    assert_eq!(parse_u64("12a"), None);
    assert_eq!(parse_u64("-3"), None);
    assert_eq!(parse_u64("1 2"), None);
}

#[test]
fn parses_up_to_the_u64_boundary() {
    assert_eq!(parse_u64("18446744073709551615"), Some(u64::MAX));
    assert_eq!(parse_u64("18446744073709551616"), None);
    assert_eq!(parse_u64("99999999999999999999999"), None);
}

#[test]
fn statm_reads_the_second_field_in_pages() {
    // 567 resident pages of 4 KiB each.
    assert_eq!(statm_resident_kb("1234 567 89 1 0 22 0"), 2268);
    assert_eq!(statm_resident_kb("1234 567"), 2268);
}

#[test]
fn statm_tolerates_surrounding_whitespace() {
    assert_eq!(statm_resident_kb("  1234\t567\n89"), 2268);
    assert_eq!(statm_resident_kb("1234\n567\n"), 2268);
}

#[test]
fn statm_reads_zero_when_unavailable() {
    assert_eq!(statm_resident_kb(""), 0);
    assert_eq!(statm_resident_kb("1234"), 0);
    assert_eq!(statm_resident_kb("1234 abc 9"), 0);
    // The field value itself overflows a u64.
    assert_eq!(statm_resident_kb("1 18446744073709551616 2"), 0);
    // The value fits a u64 but the kilobyte conversion would not.
    assert_eq!(statm_resident_kb("1 18446744073709551615 2"), 0);
}
