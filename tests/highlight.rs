use ssh_config::highlight::{highlight_folded, highlight_search_matches};

fn pieces(v: Vec<(String, bool)>) -> Vec<(String, bool)> {
    v
}

fn owned(v: &[(&str, bool)]) -> Vec<(String, bool)> {
    v.iter().map(|(s, b)| (s.to_string(), *b)).collect()
}

#[test]
fn empty_query_is_one_plain_piece() {
    assert_eq!(pieces(highlight_search_matches("Web-Server", "")), owned(&[("Web-Server", false)]));
}

#[test]
fn occurrences_ignore_case_and_keep_text_case() {
    assert_eq!(
        highlight_search_matches("Web-Server", "SER"),
        owned(&[("Web-", false), ("Ser", true), ("ver", false)])
    );
    assert_eq!(highlight_search_matches("WebWeb", "web"), owned(&[("Web", true), ("Web", true)]));
}

#[test]
fn occurrences_do_not_overlap() {
    assert_eq!(highlight_search_matches("aaa", "aa"), owned(&[("aa", true), ("a", false)]));
}

#[test]
fn no_occurrence_leaves_text_plain() {
    assert_eq!(highlight_search_matches("db1", "x"), owned(&[("db1", false)]));
    assert_eq!(highlight_search_matches("", "x"), Vec::<(String, bool)>::new());
}

#[test]
fn folded_pieces_follow_positions() {
    let text: Vec<char> = "ABC".chars().collect();
    let folded: Vec<char> = "abc".chars().collect();
    let q: Vec<char> = "b".chars().collect();
    assert_eq!(highlight_folded(&text, &folded, &q), owned(&[("A", false), ("B", true), ("C", false)]));
    let short: Vec<char> = "ab".chars().collect();
    assert_eq!(highlight_folded(&text, &short, &q), owned(&[("ABC", false)]));
}
