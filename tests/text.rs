use ssh_config::grapheme;
use ssh_config::text::reverse;

#[test]
fn reverse_chars() {
    assert_eq!(reverse("abc"), "cba");
    assert_eq!(reverse(""), "");
    assert_eq!(reverse("héllo\n"), "\nolléh");
}

#[test]
fn reverse_keeps_combining_marks_together() {
    // "e" followed by a combining acute accent is one cluster.
    let s = "ae\u{301}b";
    assert_eq!(grapheme::reverse(s), "be\u{301}a");
    assert_eq!(reverse(s), "b\u{301}ea");
    assert_eq!(grapheme::reverse(""), "");
}

#[test]
fn reverse_clusters_joins_backwards() {
    let parts = vec!["ab".to_string(), "c".to_string(), "".to_string(), "de".to_string()];
    assert_eq!(grapheme::reverse_clusters(&parts), "decab");
}
