//! Argument reading of the interactive control client.
use vstd::prelude::*;

use crate::cli::spec_bool_from_word;
use crate::text::str_equal;
use crate::util::{lowercase, to_lowercase};

verus! {

/// What a lowercase switch word means: on and true are `true`, off and
/// false are `false`; any other word means nothing.
pub open spec fn spec_switch_from_word(word: Seq<char>) -> Option<bool> {
    if word == seq!['o', 'n'] || word == seq!['t', 'r', 'u', 'e'] {
        Some(true)
    } else if word == seq!['o', 'f', 'f'] || word == seq!['f', 'a', 'l', 's', 'e'] {
        Some(false)
    } else {
        None
    }
}

/// Reads a switch word that is already lowercase.
pub fn switch_from_word(word: &str) -> (state: Option<bool>)
    ensures
        state == spec_switch_from_word(word@),
{
    proof {
        reveal_strlit("true");
        reveal_strlit("on");
        reveal_strlit("false");
        reveal_strlit("off");
        assert("true"@ =~= seq!['t', 'r', 'u', 'e']);
        assert("on"@ =~= seq!['o', 'n']);
        assert("false"@ =~= seq!['f', 'a', 'l', 's', 'e']);
        assert("off"@ =~= seq!['o', 'f', 'f']);
    }
    if str_equal(word, "on") || str_equal(word, "true") {
        Some(true)
    } else if str_equal(word, "off") || str_equal(word, "false") {
        Some(false)
    } else {
        None
    }
}

/// Reads a switch state (on/off, true/false) as the control client takes
/// it, ignoring case.
pub fn string_to_bool(text: &str) -> (state: Option<bool>)
    ensures
        state == spec_switch_from_word(lowercase(text@)),
{
    let lower = to_lowercase(text);
    switch_from_word(lower.as_str())
}

/// The control client and the command line agree on every switch word:
/// a word that the control client reads as on or off is read as the same
/// answer on the command line, and exactly the words on, off, true and
/// false are switch words.
pub proof fn lemma_switch_words_agree(word: Seq<char>)
    ensures
        spec_switch_from_word(word) matches Some(state) ==> spec_bool_from_word(word) == Ok::<
            bool,
            (),
        >(state),
        spec_switch_from_word(word) is Some <==> (word =~= seq!['o', 'n'] || word =~= seq![
            'o',
            'f',
            'f',
        ] || word =~= seq!['t', 'r', 'u', 'e'] || word =~= seq!['f', 'a', 'l', 's', 'e']),
{
}

} // verus!
