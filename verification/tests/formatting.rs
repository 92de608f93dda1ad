use wallet_adapter::formatting::{
    airdrop_lamports, entered_lamports, parse_u64, trunk_cluster_name, truncate_nonce, validate_url,
};

#[test]
fn cluster_names_are_cut_after_ten_bytes() {
    assert_eq!(trunk_cluster_name("devnet"), "devnet");
    assert_eq!(trunk_cluster_name("0123456789"), "0123456789");
    assert_eq!(trunk_cluster_name("0123456789a"), "0123456789...");
    assert_eq!(trunk_cluster_name(""), "");
    assert_eq!(trunk_cluster_name("ééééé"), "ééééé");
    assert_eq!(trunk_cluster_name("éééééé"), "éééééé...");
}

#[test]
fn nonces_are_cut_after_twenty_bytes() {
    assert_eq!(truncate_nonce("abc"), "SESSION: abc");
    assert_eq!(truncate_nonce("12345678901"), "SESSION: 12345678901");
    assert_eq!(truncate_nonce("123456789012"), "SESSION: 12345678901...");
}

#[test]
fn urls() {
    assert!(validate_url("http://localhost"));
    assert!(validate_url("https://a.b"));
    assert!(!validate_url("https://"));
    assert!(!validate_url("http://a"));
    assert!(validate_url("http://ab"));
    assert!(!validate_url("http://"));
    assert!(!validate_url("ftp://example.com"));
    assert!(!validate_url("localhost:8899"));
}

#[test]
fn lamports_inputs() {
    assert_eq!(airdrop_lamports("2"), 2_000_000_000);
    assert_eq!(airdrop_lamports("+7"), 7_000_000_000);
    assert_eq!(airdrop_lamports("abc"), 1_000_000_000);
    assert_eq!(airdrop_lamports(""), 1_000_000_000);
    assert_eq!(airdrop_lamports("18446744073709551616"), 1_000_000_000);
    assert_eq!(airdrop_lamports("18446744073"), 18_446_744_073_000_000_000);
    assert_eq!(entered_lamports("42", 5), 42);
    assert_eq!(entered_lamports("4 2", 5), 5);
    assert_eq!(entered_lamports("-1", 5), 5);
}

#[test]
fn unsigned_numbers() {
    assert_eq!(parse_u64("0"), Some(0));
    assert_eq!(parse_u64("007"), Some(7));
    assert_eq!(parse_u64("+12"), Some(12));
    assert_eq!(parse_u64("18446744073709551615"), Some(u64::MAX));
    assert_eq!(parse_u64("18446744073709551616"), None);
    assert_eq!(parse_u64("99999999999999999999x"), None);
    assert_eq!(parse_u64("+"), None);
    assert_eq!(parse_u64(""), None);
    assert_eq!(parse_u64("-1"), None);
    assert_eq!(parse_u64(" 1"), None);
    assert_eq!(parse_u64("1.5"), None);
    assert_eq!(parse_u64("١"), None);
    for text in ["0", "42", "+3", "-0", "++1", "12a", "184467440737095516150"] {
        assert_eq!(parse_u64(text), text.parse::<u64>().ok());
    }
}
