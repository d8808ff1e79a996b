use stock_monitor::checker::is_in_stock;
use stock_monitor::text::contains_substring;

#[test]
fn contains_finds_substring_in_middle() {
    assert!(contains_substring("abcab", "cab"));
}

#[test]
fn contains_rejects_absent_substring() {
    assert!(!contains_substring("abcab", "abd"));
}

#[test]
fn contains_empty_needle_always_occurs() {
    assert!(contains_substring("", ""));
    assert!(contains_substring("abc", ""));
}

#[test]
fn contains_needle_longer_than_haystack() {
    assert!(!contains_substring("ab", "abc"));
}

#[test]
fn contains_whole_text() {
    assert!(contains_substring("Out of stock", "Out of stock"));
}

#[test]
fn contains_is_case_sensitive() {
    assert!(!contains_substring("OUT OF STOCK", "Out of stock"));
}

#[test]
fn contains_handles_non_ascii_text() {
    assert!(contains_substring("caf\u{e9} \u{2764}\u{fe0f} bar", "\u{2764}\u{fe0f}"));
    assert!(!contains_substring("caf\u{e9}", "\u{e8}"));
}

#[test]
fn in_stock_is_negation_of_contains() {
    // Mirrors the defining equation: for a fetched page, in-stock
    // equals the indicator not occurring in the text.
    let cases = [
        ("<html>Out of stock</html>", "Out of stock"),
        ("<html>In stock now!</html>", "Out of stock"),
        ("", "x"),
        ("xyx", "yx"),
    ];
    for (text, indicator) in cases {
        assert_eq!(
            is_in_stock(Some(text), indicator),
            !text.contains(indicator),
        );
    }
}

#[test]
fn in_stock_without_page_is_false() {
    assert!(!is_in_stock(None, "Out of stock"));
    assert!(!is_in_stock(None, ""));
    assert!(!is_in_stock(None, "anything at all"));
}

#[test]
fn in_stock_indicator_present() {
    assert!(!is_in_stock(Some("<html>Out of stock</html>"), "Out of stock"));
}

#[test]
fn in_stock_indicator_absent() {
    assert!(is_in_stock(Some("<html>Buy now</html>"), "Out of stock"));
}

#[test]
fn in_stock_empty_indicator_occurs_everywhere() {
    assert!(!is_in_stock(Some("any page"), ""));
}
