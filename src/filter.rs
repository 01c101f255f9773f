//! The search filter: which entries a query selects, case-insensitively.

use vstd::prelude::*;
use crate::entry::SshConfigEntry;
use crate::strings::{contains_seq, lower_of, lowercase, str_contains};

verus! {

/// The option key that names the real host address, in lowercase.
pub open spec fn hostname_key() -> Seq<char> {
    "hostname"@
}

/// Whether an already-lowercased host, or one of the already-lowercased
/// values of its `HostName` options, contains the already-lowercased query.
pub open spec fn folded_match(host: Seq<char>, hostnames: Seq<Seq<char>>, query: Seq<char>) -> bool {
    contains_seq(host, query) || exists|j: int|
        0 <= j < hostnames.len() && contains_seq(#[trigger] hostnames[j], query)
}

/// The lowercased values of the options of `opts` whose key, lowercased, is
/// `hostname`, in their order.
pub open spec fn folded_hostnames(opts: Seq<(String, String)>) -> Seq<Seq<char>>
    decreases opts.len(),
{
    if opts.len() == 0 {
        Seq::empty()
    } else {
        let prev = folded_hostnames(opts.drop_last());
        if lower_of(opts.last().0@) == hostname_key() {
            prev.push(lower_of(opts.last().1@))
        } else {
            prev
        }
    }
}

/// An entry matches a non-empty query when its host, or the value of any
/// option whose key is `hostname` in any case, contains the query, all three
/// compared in lowercase.
pub open spec fn entry_matches(e: SshConfigEntry, query: Seq<char>) -> bool {
    folded_match(lower_of(e.host@), folded_hostnames(e.options@), lower_of(query))
}

/// The indices of the entries that `query` selects, in the order of the
/// entries: all of them for an empty query.
pub open spec fn filter_spec(entries: Seq<SshConfigEntry>, query: Seq<char>) -> Seq<usize>
    decreases entries.len(),
{
    if entries.len() == 0 {
        Seq::empty()
    } else {
        let prev = filter_spec(entries.drop_last(), query);
        if query.len() == 0 || entry_matches(entries.last(), query) {
            prev.push((entries.len() - 1) as usize)
        } else {
            prev
        }
    }
}

/// An empty query selects every entry, in the order of the entries: the
/// result is `0, 1, ..., entries.len() - 1`.
pub proof fn lemma_empty_query_selects_all(entries: Seq<SshConfigEntry>, query: Seq<char>)
    requires
        query.len() == 0,
    ensures
        filter_spec(entries, query) == Seq::new(entries.len(), |i: int| i as usize),
    decreases entries.len(),
{
    if entries.len() > 0 {
        lemma_empty_query_selects_all(entries.drop_last(), query);
        assert(filter_spec(entries, query) =~= Seq::new(entries.len(), |i: int| i as usize));
    } else {
        assert(filter_spec(entries, query) =~= Seq::new(entries.len(), |i: int| i as usize));
    }
}

/// Filtering is a function of the entries and the query alone: two results
/// of `filter_entries` on the same entries and query are the same sequence.
pub proof fn lemma_filter_deterministic(
    entries: Seq<SshConfigEntry>,
    query: Seq<char>,
    first: Seq<usize>,
    second: Seq<usize>,
)
    requires
        first == filter_spec(entries, query),
        second == filter_spec(entries, query),
    ensures
        first == second,
{
}

/// Every index that a query selects is the index of an entry, and the
/// indices come in strictly increasing order.
pub proof fn lemma_filter_in_order(entries: Seq<SshConfigEntry>, query: Seq<char>)
    requires
        entries.len() <= usize::MAX,
    ensures
        forall|k: int|
            0 <= k < filter_spec(entries, query).len() ==> (#[trigger] filter_spec(
                entries,
                query,
            )[k] as int) < entries.len(),
        forall|k: int, l: int|
            0 <= k < l < filter_spec(entries, query).len() ==> #[trigger] filter_spec(
                entries,
                query,
            )[k] < #[trigger] filter_spec(entries, query)[l],
    decreases entries.len(),
{
    if entries.len() > 0 {
        let prev = filter_spec(entries.drop_last(), query);
        let cur = filter_spec(entries, query);
        lemma_filter_in_order(entries.drop_last(), query);
        assert forall|k: int| 0 <= k < cur.len() implies (#[trigger] cur[k] as int)
            < entries.len() by {
            if k < prev.len() {
                assert(cur[k] == prev[k]);
            }
        }
        if query.len() == 0 || entry_matches(entries.last(), query) {
            assert(cur == prev.push((entries.len() - 1) as usize));
            assert forall|k: int, l: int| 0 <= k < l < cur.len() implies #[trigger] cur[k]
                < #[trigger] cur[l] by {
                assert(cur[k] == prev[k]);
                assert((prev[k] as int) < entries.len() - 1);
                if l < prev.len() {
                    assert(cur[l] == prev[l]);
                }
            }
        } else {
            assert(cur == prev);
        }
    }
}

/// Decides a match on values that are already lowercased: the host, the
/// values of the `HostName` options, and the query.
pub fn matches_folded(host: &str, hostnames: &[String], query: &str) -> (r: bool)
    ensures
        r == folded_match(host@, hostnames@.map_values(|h: String| h@), query@),
{
    let ghost hs = hostnames@.map_values(|h: String| h@);
    if str_contains(host, query) {
        return true;
    }
    let mut j: usize = 0;
    while j < hostnames.len()
        invariant
            j <= hostnames@.len(),
            hs == hostnames@.map_values(|h: String| h@),
            forall|k: int| 0 <= k < j ==> !contains_seq(#[trigger] hs[k], query@),
        decreases hostnames@.len() - j,
    {
        if str_contains(hostnames[j].as_str(), query) {
            assert(contains_seq(hs[j as int], query@));
            return true;
        }
        j = j + 1;
    }
    false
}

/// The lowercased values of the `HostName` options of `opts`.
fn hostname_values(opts: &Vec<(String, String)>) -> (r: Vec<String>)
    ensures
        r@.map_values(|h: String| h@) == folded_hostnames(opts@),
{
    let key = String::from_str("hostname");
    let mut r: Vec<String> = Vec::new();
    let mut i: usize = 0;
    while i < opts.len()
        invariant
            i <= opts@.len(),
            key@ == hostname_key(),
            r@.map_values(|h: String| h@) == folded_hostnames(opts@.subrange(0, i as int)),
        decreases opts@.len() - i,
    {
        let (k, v) = &opts[i];
        let lk = lowercase(k.as_str());
        assert(opts@.subrange(0, i + 1).drop_last() == opts@.subrange(0, i as int));
        if lk == key {
            let lv = lowercase(v.as_str());
            r.push(lv);
            assert(r@.map_values(|h: String| h@) =~= folded_hostnames(opts@.subrange(0, i as int)).push(lv@));
        }
        i = i + 1;
    }
    assert(opts@.subrange(0, i as int) == opts@);
    r
}

/// The indices of the entries that `query` selects, in the order of the
/// entries. An empty query selects every entry; otherwise an entry is
/// selected when its host, or the value of an option whose key is
/// `hostname` (in any case), contains the query, ignoring case.
pub fn filter_entries(entries: &[SshConfigEntry], query: &str) -> (r: Vec<usize>)
    ensures
        r@ == filter_spec(entries@, query@),
{
    let mut r: Vec<usize> = Vec::new();
    let folded_query = lowercase(query);
    let empty = query.is_empty();
    let mut i: usize = 0;
    while i < entries.len()
        invariant
            i <= entries@.len(),
            empty == (query@.len() == 0),
            folded_query@ == lower_of(query@),
            r@ == filter_spec(entries@.subrange(0, i as int), query@),
        decreases entries@.len() - i,
    {
        let e = &entries[i];
        assert(entries@.subrange(0, i + 1).drop_last() == entries@.subrange(0, i as int));
        if empty {
            r.push(i);
        } else {
            let host = lowercase(e.host.as_str());
            let hostnames = hostname_values(&e.options);
            if matches_folded(host.as_str(), hostnames.as_slice(), folded_query.as_str()) {
                r.push(i);
            }
        }
        i = i + 1;
    }
    assert(entries@.subrange(0, i as int) == entries@);
    r
}

} // verus!
