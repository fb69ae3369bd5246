use rusty_server::text::{same_text, strip_prefix};

#[test]
fn same_text_compares_characters() {
    assert!(same_text("", ""));
    assert!(same_text("en", "en"));
    assert!(!same_text("en", "eN"));
    assert!(!same_text("en", "en "));
    assert!(!same_text("en", "e"));
    assert!(same_text("\u{0a24}\u{0a41}", "\u{0a24}\u{0a41}"));
    assert!(!same_text("\u{0a24}\u{0a41}", "\u{0a24}\u{0a42}"));
}

#[test]
fn strip_prefix_splits_at_the_prefix() {
    assert_eq!(strip_prefix("Bearer abc", "Bearer "), Some("abc"));
    assert_eq!(strip_prefix("Bearer ", "Bearer "), Some(""));
    assert_eq!(strip_prefix("Bearer", "Bearer "), None);
    assert_eq!(strip_prefix("bearer abc", "Bearer "), None);
    assert_eq!(strip_prefix("", "Bearer "), None);
    assert_eq!(strip_prefix("abc", ""), Some("abc"));
    assert_eq!(strip_prefix("\u{e9}t\u{e9} chaud", "\u{e9}t\u{e9} "), Some("chaud"));
    assert_eq!(strip_prefix("Bearer \u{2019}x\u{2019}", "Bearer "), Some("\u{2019}x\u{2019}"));
}
