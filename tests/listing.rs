use vmadm::jails::{iface_target, list, parse_listing, ListError};
use vmadm::text::{decimal_string, parse_first_line_u64, parse_u64};

#[test]
fn listing_two_entries() {
    let l = parse_listing("3 abc\n5 def\n").unwrap();
    assert_eq!(l.len(), 2);
    assert_eq!(l.get("abc").unwrap().id, 3);
    assert_eq!(l.get("def").unwrap().id, 5);
    assert!(l.get("ghi").is_none());
}

#[test]
fn listing_empty() {
    let l = parse_listing("").unwrap();
    assert_eq!(l.len(), 0);
}

#[test]
fn listing_non_numeric_id_fails() {
    assert_eq!(parse_listing("x abc\n").unwrap_err(), ListError::InvalidId);
}

#[test]
fn listing_missing_name_fails() {
    assert_eq!(parse_listing("3 abc\n7\n").unwrap_err(), ListError::MissingName);
}

#[test]
fn listing_skips_blank_lines_and_extra_fields() {
    let l = parse_listing("\n\n4 one two\n").unwrap();
    assert_eq!(l.len(), 1);
    assert_eq!(l.get("one").unwrap().id, 4);
}

#[test]
fn listing_later_entry_wins() {
    let l = parse_listing("1 a\n2 a\n").unwrap();
    assert_eq!(l.get("a").unwrap().id, 2);
}

#[test]
fn stub_list_has_two_jails() {
    let l = list().unwrap();
    assert_eq!(l.len(), 2);
    assert_eq!(l.get("00000000-1f3e-4b11-b0ae-8494bb6ecd52").unwrap().id, 1);
    let nested = "00000000-1f3e-4b11-b0ae-8494bb6ecd52.00000000-1f3e-4b11-b0ae-8494bb6ecd52";
    assert_eq!(l.get(nested).unwrap().id, 2);
}

#[test]
fn interface_target_name() {
    assert_eq!(iface_target(7, "net0"), "j7:net0");
    assert_eq!(iface_target(1234, "vnic1"), "j1234:vnic1");
}

#[test]
fn decimal_rendering() {
    assert_eq!(decimal_string(0), "0");
    assert_eq!(decimal_string(1024), "1024");
    assert_eq!(decimal_string(u64::MAX), "18446744073709551615");
}

#[test]
fn unsigned_parsing() {
    assert_eq!(parse_u64("42"), Some(42));
    assert_eq!(parse_u64("+7"), Some(7));
    assert_eq!(parse_u64("18446744073709551615"), Some(u64::MAX));
    assert_eq!(parse_u64("18446744073709551616"), None);
    assert_eq!(parse_u64(""), None);
    assert_eq!(parse_u64("+"), None);
    assert_eq!(parse_u64("-1"), None);
    assert_eq!(parse_u64("1 "), None);
}

#[test]
fn first_line_number_is_trimmed() {
    assert_eq!(parse_first_line_u64("  42 \ngarbage\n"), Some(42));
    assert_eq!(parse_first_line_u64("17\r\n"), Some(17));
    assert_eq!(parse_first_line_u64("abc\n42\n"), None);
    assert_eq!(parse_first_line_u64(""), None);
}
