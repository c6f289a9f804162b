use rollup_driver::validate::{
    has_hex_suffix, is_eth_address, is_u256_value, ADDRESS_DIGITS_MAX, U256_DIGITS_MAX,
};

#[test]
fn address_accepts_forty_lowercase_hex_digits() {
    let text = format!("0x{}", "ab".repeat(20));
    assert!(is_eth_address(&text));
    assert!(is_eth_address("0x0000000000000000000000000000000000000000"));
}

#[test]
fn address_accepts_mixed_case_and_short_runs() {
    assert!(is_eth_address("0xA"));
    assert!(is_eth_address("0xDeadBeef"));
    assert!(is_eth_address(&format!("0x{}", "F".repeat(42))));
}

#[test]
fn address_rejects_non_hex_run() {
    let text = format!("0x{}", "Z".repeat(41));
    assert!(!is_eth_address(&text));
    assert!(!is_eth_address("0xZZ"));
    assert!(!is_eth_address("0x12g"));
}

#[test]
fn address_rejects_empty_and_bare_prefix() {
    assert!(!is_eth_address(""));
    assert!(!is_eth_address("0x"));
    assert!(!is_eth_address("x1"));
    assert!(!is_eth_address("1234"));
}

#[test]
fn address_rejects_run_longer_than_limit() {
    assert!(!is_eth_address(&format!("0x{}", "1".repeat(43))));
    assert!(!is_eth_address(&format!("0x{}", "0".repeat(43))));
}

#[test]
fn address_ignores_what_precedes_the_matching_suffix() {
    assert!(is_eth_address("garbage 0x1234"));
    assert!(is_eth_address(&format!("zz\u{e9}!0x{}", "ab".repeat(20))));
    assert!(is_eth_address(&format!("0x{}0x{}", "1".repeat(50), "2".repeat(42))));
}

#[test]
fn address_rejects_trailing_garbage() {
    assert!(!is_eth_address("0x1234 "));
    assert!(!is_eth_address("0x1234\n"));
}

#[test]
fn u256_accepts_up_to_sixty_four_digits() {
    assert!(is_u256_value("0x01"));
    assert!(is_u256_value(&format!("0x{}", "f".repeat(64))));
    assert!(!is_u256_value(&format!("0x{}", "f".repeat(65))));
    assert!(!is_u256_value("0x"));
    assert!(is_u256_value("junk0x1"));
}

#[test]
fn limits_and_bounded_suffix() {
    assert_eq!(ADDRESS_DIGITS_MAX, 42);
    assert_eq!(U256_DIGITS_MAX, 64);
    assert!(has_hex_suffix("0x123", 3));
    assert!(!has_hex_suffix("0x123", 2));
    assert!(!has_hex_suffix("0x1", 0));
}
