use redwood::text::{decimal_text, same_text};

#[test]
fn decimal_matches_to_string() {
    for n in [0u128, 7, 9, 10, 99, 100, 1234, 1_700_000_000_000, u64::MAX as u128, u128::MAX] {
        assert_eq!(decimal_text(n), n.to_string());
    }
}

#[test]
fn same_text_compares_characters() {
    assert!(same_text("orders", "orders"));
    assert!(!same_text("orders", "order"));
    assert!(same_text("", ""));
    assert!(!same_text("é", "e"));
}
