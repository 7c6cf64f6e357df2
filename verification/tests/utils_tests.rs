use eval_stack::utils::statm_resident_bytes;

fn parse(s: &str, page_size: u64) -> Option<u64> {
    statm_resident_bytes(&s.as_bytes().to_vec(), page_size)
}

#[test]
fn resident_pages_times_page_size() {
    // A typical statm line: size resident shared text lib data dt.
    assert_eq!(parse("12345 678 90 1 0 234 0\n", 4096), Some(678 * 4096));
    assert_eq!(parse("1 1 1 1 1 1 1", 4096), Some(4096));
}

#[test]
fn leading_and_extra_whitespace_is_tolerated() {
    assert_eq!(parse("  12345\t678  90\n", 4096), Some(678 * 4096));
    assert_eq!(parse("12345\n678\n", 16384), Some(678 * 16384));
}

#[test]
fn a_missing_second_field_is_no_sample() {
    assert_eq!(parse("", 4096), None);
    assert_eq!(parse("   \n", 4096), None);
    assert_eq!(parse("12345", 4096), None);
    assert_eq!(parse("12345   ", 4096), None);
}

#[test]
fn a_malformed_second_field_is_no_sample() {
    assert_eq!(parse("12345 67x8 9", 4096), None);
    assert_eq!(parse("12345 -678 9", 4096), None);
    assert_eq!(parse("12345 6.78 9", 4096), None);
}

#[test]
fn an_overflowing_byte_count_is_no_sample() {
    assert_eq!(parse("1 99999999999999999999999999 1", 4096), None);
    assert_eq!(parse("1 18446744073709551615 1", 2), None);
    assert_eq!(parse("1 18446744073709551615 1", 1), Some(u64::MAX));
}

#[test]
fn zero_resident_pages_is_zero_bytes() {
    assert_eq!(parse("1 0 1", 4096), Some(0));
}
