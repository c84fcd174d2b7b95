use predlab::text::{truncate, u64_to_string};

#[test]
fn truncate_respects_char_boundaries() {
    assert_eq!(truncate("hello", 10), "hello");
    assert_eq!(truncate("hello world", 5), "hell…");
    assert_eq!(truncate("héllo wörld", 5), "héll…");
    assert_eq!(truncate("日本語テスト", 3), "日本…");
}

#[test]
fn truncate_keeps_text_that_fits_exactly() {
    assert_eq!(truncate("abc", 3), "abc");
    assert_eq!(truncate("", 0), "");
    assert_eq!(truncate("abcd", 3).chars().count(), 3);
}

#[test]
fn decimal_rendering() {
    assert_eq!(u64_to_string(0), "0");
    assert_eq!(u64_to_string(10), "10");
    assert_eq!(u64_to_string(u64::MAX), "18446744073709551615");
}
