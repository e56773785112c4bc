use firecracker_sdk::digits::{format_u64, parse_u32, parse_u64, usize_to_string};

#[test]
fn format_produces_canonical_decimal() {
    assert_eq!(format_u64(0), b"0".to_vec());
    assert_eq!(format_u64(7), b"7".to_vec());
    assert_eq!(format_u64(51200), b"51200".to_vec());
    assert_eq!(format_u64(u64::MAX), b"18446744073709551615".to_vec());
}

#[test]
fn usize_to_string_matches_format() {
    assert_eq!(usize_to_string(0), "0");
    assert_eq!(usize_to_string(100), "100");
    assert_eq!(usize_to_string(3000), "3000");
}

#[test]
fn parse_reads_what_format_wrote() {
    assert_eq!(parse_u64(b"0"), Some(0));
    assert_eq!(parse_u64(b"51200"), Some(51200));
    assert_eq!(parse_u64(b"18446744073709551615"), Some(u64::MAX));
    assert_eq!(parse_u64(&format_u64(987654321)), Some(987654321));
}

#[test]
fn parse_accepts_leading_zeros() {
    assert_eq!(parse_u64(b"007"), Some(7));
}

#[test]
fn parse_rejects_what_is_not_a_number() {
    assert_eq!(parse_u64(b""), None);
    assert_eq!(parse_u64(b"12x"), None);
    assert_eq!(parse_u64(b" 12"), None);
    assert_eq!(parse_u64(b"-1"), None);
    assert_eq!(parse_u64(b"18446744073709551616"), None);
}

#[test]
fn parse_u32_checks_the_narrower_range() {
    assert_eq!(parse_u32(b"4294967295"), Some(u32::MAX));
    assert_eq!(parse_u32(b"4294967296"), None);
}
