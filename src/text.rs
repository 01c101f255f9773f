//! Reversal of text, character by character.

use vstd::prelude::*;
use crate::strings::{chars_of, push_char};

verus! {

/// The characters of `input` in reverse order.
pub fn reverse(input: &str) -> (r: String)
    ensures
        r@ == input@.reverse(),
{
    let chars = chars_of(input);
    let mut r = String::new();
    let mut i: usize = chars.len();
    while i > 0
        invariant
            i <= chars@.len(),
            chars@ == input@,
            r@ == chars@.subrange(i as int, chars@.len() as int).reverse(),
        decreases i,
    {
        push_char(&mut r, chars[i - 1]);
        i = i - 1;
        assert(r@ =~= chars@.subrange(i as int, chars@.len() as int).reverse());
    }
    r
}

} // verus!
