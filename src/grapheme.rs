//! Reversal of text by user-perceived characters (extended grapheme
//! clusters), so that a letter keeps its combining marks.

use vstd::prelude::*;
use unicode_segmentation::UnicodeSegmentation;

verus! {

/// The extended grapheme clusters of a text, in order, as the Unicode
/// segmentation rules cut it.
pub uninterp spec fn graphemes_of(s: Seq<char>) -> Seq<Seq<char>>;

/// Relies on `UnicodeSegmentation::graphemes` with extended clusters: the
/// clusters of `s` in order, each as its own string.
#[verifier::external_body]
fn extended_graphemes(s: &str) -> (r: Vec<String>)
    ensures
        r@.map_values(|g: String| g@) == graphemes_of(s@),
{
    s.graphemes(true).map(|g| g.to_string()).collect()
}

/// The pieces of `gs` joined, the last piece first.
pub open spec fn joined_backwards(gs: Seq<Seq<char>>) -> Seq<char>
    decreases gs.len(),
{
    if gs.len() == 0 {
        Seq::empty()
    } else {
        gs.last() + joined_backwards(gs.drop_last())
    }
}

/// Joins `clusters` in reverse order, each cluster kept as it is.
pub fn reverse_clusters(clusters: &[String]) -> (r: String)
    ensures
        r@ == joined_backwards(clusters@.map_values(|g: String| g@)),
{
    let ghost gs = clusters@.map_values(|g: String| g@);
    let mut r = String::new();
    let mut i: usize = clusters.len();
    assert(gs.take(i as int) =~= gs);
    assert(r@ + joined_backwards(gs) =~= joined_backwards(gs));
    while i > 0
        invariant
            i <= clusters@.len(),
            gs == clusters@.map_values(|g: String| g@),
            r@ + joined_backwards(gs.take(i as int)) == joined_backwards(gs),
        decreases i,
    {
        let ghost before = r@;
        r.append(clusters[i - 1].as_str());
        assert(gs.take(i as int).drop_last() =~= gs.take(i - 1));
        assert(gs.take(i as int).last() == clusters@[i - 1]@);
        assert(before + joined_backwards(gs.take(i as int)) =~= r@ + joined_backwards(
            gs.take(i - 1),
        ));
        i = i - 1;
    }
    assert(gs.take(0) =~= Seq::<Seq<char>>::empty());
    assert(r@ + Seq::<char>::empty() =~= r@);
    r
}

/// The extended grapheme clusters of `input` in reverse order.
pub fn reverse(input: &str) -> (r: String)
    ensures
        r@ == joined_backwards(graphemes_of(input@)),
{
    let clusters = extended_graphemes(input);
    reverse_clusters(clusters.as_slice())
}

} // verus!
