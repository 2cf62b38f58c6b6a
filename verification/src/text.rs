//! Text as the contracts see it: a `String` stands for its characters, a
//! list of strings for the list of their characters.

use vstd::prelude::*;

verus! {

/// The text in an optional string.
pub open spec fn text_of(text: Option<String>) -> Option<Seq<char>> {
    match text {
        Some(t) => Some(t@),
        None => None,
    }
}

/// A copy of an optional string.
pub fn copy_text(text: &Option<String>) -> (copy: Option<String>)
    ensures
        text_of(copy) == text_of(*text),
{
    match text {
        Some(t) => Some(t.clone()),
        None => None,
    }
}

/// A copy of a list of strings.
pub fn copy_words(words: &Vec<String>) -> (copy: Vec<String>)
    ensures
        copy.deep_view() == words.deep_view(),
{
    let mut copy: Vec<String> = Vec::new();
    let mut i: usize = 0;
    while i < words.len()
        invariant
            i <= words.len(),
            copy.len() == i,
            forall|k: int| 0 <= k < i ==> copy[k]@ == words[k]@,
        decreases words.len() - i,
    {
        copy.push(words[i].clone());
        i = i + 1;
    }
    assert(copy.deep_view() =~= words.deep_view());
    copy
}

} // verus!
