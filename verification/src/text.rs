//! Comparing a name given as text with a fixed word.

use vstd::prelude::*;
use vstd::string::*;

verus! {

/// Whether the characters of `name` are exactly those of `word`.
pub fn str_is(name: &str, word: &[char]) -> (r: bool)
    ensures
        r == (name@ == word@),
{
    let n = name.unicode_len();
    if n != word.len() {
        return false;
    }
    let mut i: usize = 0;
    while i < n
        invariant
            n == name@.len(),
            n == word@.len(),
            i <= n,
            forall|j: int| 0 <= j < i ==> name@[j] == word@[j],
        decreases n - i,
    {
        if name.get_char(i) != word[i] {
            return false;
        }
        i = i + 1;
    }
    assert(name@ =~= word@);
    true
}

} // verus!
