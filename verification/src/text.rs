//! Words as sequences of characters, and lists of words.

use vstd::prelude::*;

verus! {

/// `String::push` appends the character to the end of the string. Running
/// out of memory is left aside, as vstd leaves it aside for `Vec::push`.
pub assume_specification[ String::push ](s: &mut String, ch: char)
    ensures
        final(s)@ == old(s)@.push(ch),
;

/// `String::pop` removes the last character and returns it, or returns
/// `None` and leaves the string as it is if the string is empty.
pub assume_specification[ String::pop ](s: &mut String) -> (r: Option<char>)
    ensures
        old(s)@.len() == 0 ==> r.is_none() && final(s)@ == old(s)@,
        old(s)@.len() > 0 ==> r == Some(old(s)@.last()) && final(s)@ == old(s)@.drop_last(),
;

/// The words of a list, each as its characters.
pub open spec fn words(list: Seq<String>) -> Seq<Seq<char>> {
    list.map_values(|w: String| w@)
}

/// Whether `word` is in `list`.
pub fn contains_word(list: &Vec<String>, word: &String) -> (r: bool)
    ensures
        r == words(list@).contains(word@),
{
    let mut i: usize = 0;
    while i < list.len()
        invariant
            i <= list.len(),
            forall|j: int| 0 <= j < i ==> words(list@)[j] != word@,
        decreases list.len() - i,
    {
        if list[i] == *word {
            assert(words(list@)[i as int] == word@);
            return true;
        }
        i += 1;
    }
    false
}

} // verus!
