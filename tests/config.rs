use ssh_config::config::{classify_line, parse_ssh_config, assemble_entries, LineKind};
use ssh_config::SshConfigEntry;

fn lines(text: &str) -> Vec<String> {
    text.lines().map(|l| l.to_string()).collect()
}

fn opts(e: &SshConfigEntry) -> Vec<(&str, &str)> {
    e.options.iter().map(|(k, v)| (k.as_str(), v.as_str())).collect()
}

#[test]
fn classify_each_kind() {
    assert!(matches!(classify_line("  # --- Work Servers ---  "), LineKind::Tag(ref t) if t == "Work Servers"));
    assert!(matches!(classify_line("# just a note"), LineKind::Comment(ref c) if c == "# just a note"));
    assert!(matches!(classify_line("   #indented"), LineKind::Comment(ref c) if c == "#indented"));
    assert!(matches!(classify_line("Host web1 web2 "), LineKind::Section(ref h) if h == "web1 web2"));
    assert!(matches!(classify_line("  HostName   10.0.0.1 "), LineKind::Setting(ref k, ref v) if k == "HostName" && v == "10.0.0.1"));
    assert!(matches!(classify_line(""), LineKind::Other));
    assert!(matches!(classify_line("lonely"), LineKind::Other));
}

#[test]
fn parse_sections_with_tags() {
    let text = "# --- Work ---\nHost a\n  HostName 10.0.0.1\n  User me\n# note on b\n# --- Home ---\nHost b\n  Port 22\n";
    let entries = parse_ssh_config(&lines(text));
    assert_eq!(entries.len(), 2);
    assert_eq!(entries[0].host, "a");
    assert_eq!(opts(&entries[0]), vec![("HostName", "10.0.0.1"), ("User", "me")]);
    assert_eq!(entries[0].comments, vec!["# note on b".to_string()]);
    assert_eq!(entries[0].tag.as_deref(), Some("Work"));
    assert_eq!(entries[1].host, "b");
    assert_eq!(opts(&entries[1]), vec![("Port", "22")]);
    assert!(entries[1].comments.is_empty());
    assert_eq!(entries[1].tag.as_deref(), Some("Home"));
}

#[test]
fn parse_without_hosts_gives_nothing() {
    assert!(parse_ssh_config(&lines("# only a comment\nUser x\n")).is_empty());
    assert!(parse_ssh_config(&[]).is_empty());
}

#[test]
fn lines_before_first_host_go_to_it() {
    let entries = parse_ssh_config(&lines("User early\nHost only\n"));
    assert_eq!(entries.len(), 1);
    assert_eq!(opts(&entries[0]), vec![("User", "early")]);
    assert_eq!(entries[0].tag, None);
}

#[test]
fn assemble_from_kinds() {
    let kinds = vec![
        LineKind::Section("x".to_string()),
        LineKind::Setting("User".to_string(), "u".to_string()),
        LineKind::Tag("T".to_string()),
        LineKind::Other,
        LineKind::Section("y".to_string()),
        LineKind::Comment("# c".to_string()),
    ];
    let entries = assemble_entries(&kinds);
    assert_eq!(entries.len(), 2);
    assert_eq!(entries[0].host, "x");
    assert_eq!(entries[0].tag.as_deref(), Some("T"));
    assert_eq!(entries[1].host, "y");
    assert_eq!(entries[1].comments, vec!["# c".to_string()]);
    assert_eq!(entries[1].tag.as_deref(), Some("T"));
}
