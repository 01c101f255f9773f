use ssh_config::filter::{filter_entries, matches_folded};
use ssh_config::SshConfigEntry;

fn entry(host: &str, options: &[(&str, &str)]) -> SshConfigEntry {
    let mut e = SshConfigEntry::new(host.to_string());
    for (k, v) in options {
        e.add_option(k.to_string(), v.to_string());
    }
    e
}

fn sample() -> Vec<SshConfigEntry> {
    vec![
        entry("web1", &[("HostName", "10.0.0.1"), ("User", "admin")]),
        entry("Gateway", &[("hostname", "Bastion.Example.com")]),
        entry("db1", &[("User", "example")]),
        entry("backup", &[("HOSTNAME", "store.internal"), ("Port", "2222")]),
    ]
}

#[test]
fn empty_query_returns_all_in_order() {
    assert_eq!(filter_entries(&sample(), ""), vec![0, 1, 2, 3]);
    assert_eq!(filter_entries(&[], ""), Vec::<usize>::new());
}

#[test]
fn filter_is_pure() {
    let entries = sample();
    for q in ["", "e", "EXAMPLE", "zzz", "1"] {
        assert_eq!(filter_entries(&entries, q), filter_entries(&entries, q));
    }
}

#[test]
fn host_match_ignores_case() {
    assert_eq!(filter_entries(&sample(), "WEB"), vec![0]);
    assert_eq!(filter_entries(&sample(), "gate"), vec![1]);
}

#[test]
fn hostname_value_matches_but_other_options_do_not() {
    // "example" is the value of a User option in db1: not searched.
    assert_eq!(filter_entries(&sample(), "example"), vec![1]);
    assert_eq!(filter_entries(&sample(), "10.0.0"), vec![0]);
    assert_eq!(filter_entries(&sample(), "internal"), vec![3]);
    assert_eq!(filter_entries(&sample(), "2222"), Vec::<usize>::new());
}

#[test]
fn matches_keep_store_order() {
    assert_eq!(filter_entries(&sample(), "b"), vec![0, 1, 2, 3]);
    assert_eq!(filter_entries(&sample(), "a"), vec![1, 3]);
}

#[test]
fn any_hostname_option_counts() {
    let entries = vec![entry("x", &[("HostName", "alpha"), ("HostName", "beta")])];
    assert_eq!(filter_entries(&entries, "beta"), vec![0]);
    assert_eq!(filter_entries(&entries, "alp"), vec![0]);
    assert_eq!(filter_entries(&entries, "gamma"), Vec::<usize>::new());
}

#[test]
fn folded_match_decides_on_given_values() {
    let names = vec!["bastion.example.com".to_string()];
    assert!(matches_folded("gateway", &names, "gate"));
    assert!(matches_folded("gateway", &names, "example"));
    assert!(matches_folded("gateway", &names, ""));
    assert!(!matches_folded("gateway", &names, "Gate"));
    assert!(!matches_folded("gateway", &[], "example"));
}
