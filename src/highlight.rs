//! Splitting a text into the pieces that a search query highlights.

use vstd::prelude::*;
use crate::strings::{chars_of, lower_of, lowercase, string_of};

verus! {

/// Whether `q` occurs in `t` at position `at`.
pub open spec fn occurs_at(t: Seq<char>, q: Seq<char>, at: int) -> bool {
    0 <= at && at + q.len() <= t.len() && t.subrange(at, at + q.len()) == q
}

/// The pieces of `text` from position `last_end` on, where `folded` is
/// searched for `q` from position `from`: each occurrence, leftmost first
/// and not overlapping the previous one, is a highlighted piece; the text
/// between occurrences, when not empty, is a plain piece.
pub open spec fn segments_from(
    text: Seq<char>,
    folded: Seq<char>,
    q: Seq<char>,
    from: int,
    last_end: int,
) -> Seq<(Seq<char>, bool)>
    decreases folded.len() - from,
{
    if q.len() == 0 || from < 0 || from + q.len() > folded.len() {
        if last_end < text.len() {
            seq![(text.subrange(last_end, text.len() as int), false)]
        } else {
            Seq::empty()
        }
    } else if occurs_at(folded, q, from) {
        let before = if from > last_end {
            seq![(text.subrange(last_end, from), false)]
        } else {
            Seq::empty()
        };
        before + seq![(text.subrange(from, from + q.len()), true)] + segments_from(
            text,
            folded,
            q,
            from + q.len(),
            from + q.len(),
        )
    } else {
        segments_from(text, folded, q, from + 1, last_end)
    }
}

/// The pieces of `text` for the query `q`, both already lowercased as
/// `folded` and `q`: the whole text as one plain piece for an empty query;
/// otherwise the occurrences of `q` in `folded` mark the highlighted parts
/// of `text`, position for position.
pub open spec fn highlight_spec(text: Seq<char>, folded: Seq<char>, q: Seq<char>) -> Seq<(Seq<char>, bool)> {
    if q.len() == 0 || folded.len() != text.len() {
        seq![(text, false)]
    } else {
        segments_from(text, folded, q, 0, 0)
    }
}

/// A piece as characters and its highlight flag.
pub open spec fn piece_view(p: (String, bool)) -> (Seq<char>, bool) {
    (p.0@, p.1)
}

/// Whether `needle` occurs in `hay` at position `at`.
fn occurs_at_exec(hay: &[char], needle: &[char], at: usize) -> (r: bool)
    ensures
        r == occurs_at(hay@, needle@, at as int),
{
    if at > hay.len() || needle.len() > hay.len() - at {
        return false;
    }
    let hn = hay.len();
    let mut k: usize = 0;
    while k < needle.len()
        invariant
            hn == hay@.len(),
            k <= needle@.len(),
            at + needle@.len() <= hay@.len(),
            forall|j: int| 0 <= j < k ==> hay@[at + j] == needle@[j],
        decreases needle@.len() - k,
    {
        if hay[at + k] != needle[k] {
            assert(hay@.subrange(at as int, at + needle@.len())[k as int] != needle@[k as int]);
            return false;
        }
        k = k + 1;
    }
    assert(hay@.subrange(at as int, at + needle@.len()) =~= needle@);
    true
}

/// Splits `text` into plain and highlighted pieces, given the text
/// lowercased as `folded` and the lowercased query `query`.
pub fn highlight_folded(text: &[char], folded: &[char], query: &[char]) -> (r: Vec<(String, bool)>)
    ensures
        r@.map_values(|p: (String, bool)| piece_view(p)) == highlight_spec(text@, folded@, query@),
{
    let n = text.len();
    let qn = query.len();
    if qn == 0 || folded.len() != n {
        let mut r: Vec<(String, bool)> = Vec::new();
        r.push((string_of(text, 0, n), false));
        assert(text@.subrange(0, n as int) =~= text@);
        assert(r@.map_values(|p: (String, bool)| piece_view(p)) =~= seq![(text@, false)]);
        return r;
    }
    let ghost total = segments_from(text@, folded@, query@, 0, 0);
    let mut r: Vec<(String, bool)> = Vec::new();
    let mut from: usize = 0;
    let mut last_end: usize = 0;
    assert(r@.map_values(|p: (String, bool)| piece_view(p)) + total =~= total);
    while from <= n && qn <= n - from
        invariant
            n == text@.len(),
            n == folded@.len(),
            qn == query@.len(),
            qn > 0,
            last_end <= from,
            last_end <= n,
            total == segments_from(text@, folded@, query@, 0, 0),
            r@.map_values(|p: (String, bool)| piece_view(p)) + segments_from(
                text@,
                folded@,
                query@,
                from as int,
                last_end as int,
            ) == total,
        decreases n - from,
    {
        let ghost before = r@.map_values(|p: (String, bool)| piece_view(p));
        if occurs_at_exec(folded, query, from) {
            if from > last_end {
                r.push((string_of(text, last_end, from), false));
            }
            r.push((string_of(text, from, from + qn), true));
            assert(r@.map_values(|p: (String, bool)| piece_view(p)) =~= before + (if from > last_end {
                seq![(text@.subrange(last_end as int, from as int), false)]
            } else {
                Seq::empty()
            }) + seq![(text@.subrange(from as int, from + qn), true)]);
            from = from + qn;
            last_end = from;
        } else {
            from = from + 1;
        }
    }
    let ghost before = r@.map_values(|p: (String, bool)| piece_view(p));
    if last_end < n {
        r.push((string_of(text, last_end, n), false));
        assert(r@.map_values(|p: (String, bool)| piece_view(p)) =~= before + seq![
            (text@.subrange(last_end as int, n as int), false),
        ]);
    } else {
        assert(before + Seq::<(Seq<char>, bool)>::empty() =~= before);
    }
    r
}

/// Splits `text` into the pieces that `query` highlights, ignoring case:
/// the whole text as one plain piece when the query is empty; otherwise
/// each occurrence of the query, leftmost first and not overlapping, is a
/// highlighted piece and the text around them plain pieces.
pub fn highlight_search_matches(text: &str, query: &str) -> (r: Vec<(String, bool)>)
    ensures
        r@.map_values(|p: (String, bool)| piece_view(p)) == highlight_spec(
            text@,
            lower_of(text@),
            if query@.len() == 0 {
                Seq::empty()
            } else {
                lower_of(query@)
            },
        ),
{
    let chars = chars_of(text);
    if query.is_empty() {
        let empty: Vec<char> = Vec::new();
        return highlight_folded(chars.as_slice(), chars.as_slice(), empty.as_slice());
    }
    let folded = chars_of(lowercase(text).as_str());
    let q = chars_of(lowercase(query).as_str());
    highlight_folded(chars.as_slice(), folded.as_slice(), q.as_slice())
}

} // verus!
