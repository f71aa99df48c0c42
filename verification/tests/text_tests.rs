use backend_core::text::{compare_text, insert_sorted_unique, is_blank_text, text_eq, trim, TextOrder};

#[test]
fn trim_removes_unicode_whitespace() {
    assert_eq!(trim("  a b \n"), "a b");
    assert_eq!(trim("\u{3000}x\u{a0}"), "x");
    assert_eq!(trim("   "), "");
    assert_eq!(trim(""), "");
    assert_eq!(trim(trim(" q ")), trim(" q "));
}

#[test]
fn blank_texts() {
    assert!(is_blank_text(""));
    assert!(is_blank_text(" \t\r\n\u{2028}"));
    assert!(!is_blank_text(" . "));
}

#[test]
fn text_equality_and_order() {
    assert!(text_eq("abc", "abc"));
    assert!(!text_eq("abc", "abd"));
    assert!(!text_eq("ab", "abc"));
    assert_eq!(compare_text("a", "b"), TextOrder::Less);
    assert_eq!(compare_text("b", "a"), TextOrder::Greater);
    assert_eq!(compare_text("ab", "a"), TextOrder::Greater);
    assert_eq!(compare_text("", ""), TextOrder::Equal);
    assert_eq!(compare_text("Z", "a"), TextOrder::Less);
}

#[test]
fn sorted_insertion_keeps_one_of_each() {
    let mut v: Vec<String> = Vec::new();
    for s in ["m", "c", "x", "c", "a", "m"] {
        insert_sorted_unique(&mut v, s.to_string());
    }
    assert_eq!(v, vec!["a", "c", "m", "x"]);
}

#[test]
fn whitespace_set_follows_unicode_white_space() {
    assert!(is_blank_text("\u{85}\u{a0}\u{1680}\u{2000}\u{200a}\u{2029}\u{202f}\u{205f}\u{3000}"));
    assert!(!is_blank_text("\u{200b}"));
    assert!(!is_blank_text("\u{feff}"));
    assert_eq!(trim("\u{3000} a b\u{0b}"), "a b");
}
