//! The question whether a word is Vietnamese, which the `vi` crate answers.

use vstd::prelude::*;

verus! {

/// Whether `vi::validation::is_valid_word` takes the word for a valid
/// Vietnamese word. The rules are those of the `vi` crate and are not
/// restated here; the answer depends on the characters of the word alone.
pub uninterp spec fn valid_word(word: Seq<char>) -> bool;

/// Calls `vi::validation::is_valid_word` and returns its answer. The function
/// parses the word into consonants and vowel and looks them up in fixed
/// tables: it returns for every input.
#[verifier::external_body]
pub(crate) fn is_valid_word(word: &str) -> (r: bool)
    ensures
        r == valid_word(word@),
{
    vi::validation::is_valid_word(word)
}

} // verus!
