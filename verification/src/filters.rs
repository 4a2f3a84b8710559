//! Rules that delete every character outside a class and keep the rest in order.

use crate::chars::{ascii, is_ascii, is_whitespace, is_word_char, whitespace, word_char};
use vstd::prelude::*;

verus! {

/// Which characters a filtering rule keeps.
#[derive(Clone, Copy, Debug, PartialEq, Eq, Structural)]
pub enum Keep {
    /// ASCII characters.
    Ascii,
    /// Word characters: letters, digits and connectors such as the underscore.
    Word,
    /// Word characters and whitespace, which leaves out punctuation and symbols.
    WordOrWhitespace,
}

impl Keep {
    /// Whether the rule keeps `c`.
    pub open spec fn keeps(self, c: char) -> bool {
        match self {
            Keep::Ascii => is_ascii(c),
            Keep::Word => is_word_char(c),
            Keep::WordOrWhitespace => is_word_char(c) || is_whitespace(c),
        }
    }

    /// Decides [`Keep::keeps`].
    pub fn retains(self, c: char) -> (b: bool)
        ensures
            b == self.keeps(c),
    {
        match self {
            Keep::Ascii => ascii(c),
            Keep::Word => word_char(c),
            Keep::WordOrWhitespace => word_char(c) || whitespace(c),
        }
    }
}

/// The characters of `s` that `rule` keeps, in order.
pub open spec fn kept(s: Seq<char>, rule: Keep) -> Seq<char> {
    s.filter(|c: char| rule.keeps(c))
}

/// Deletes from `text` every character that `rule` does not keep.
pub fn keep_only(text: &str, rule: Keep) -> (cleaned: String)
    ensures
        cleaned@ == kept(text@, rule),
{
    broadcast use vstd::string::group_string_axioms;

    let mut cleaned = String::new();
    for c in it: text.chars()
        invariant
            it.seq() == text@,
            cleaned@ == kept(text@.take(it.index()), rule),
    {
        proof {
            reveal(Seq::filter);
            assert(text@.take(it.index() + 1).drop_last() =~= text@.take(it.index()));
        }
        if rule.retains(c) {
            cleaned.push(c);
        }
    }
    proof {
        assert(text@.take(text@.len() as int) =~= text@);
    }
    cleaned
}

/// Deletes every character beyond U+007F.
pub fn remove_non_ascii_characters(text: &str) -> (cleaned: String)
    ensures
        cleaned@ == kept(text@, Keep::Ascii),
{
    keep_only(text, Keep::Ascii)
}

/// Deletes every character that is not a word character.
pub fn remove_non_alphanumeric_characters(text: &str) -> (cleaned: String)
    ensures
        cleaned@ == kept(text@, Keep::Word),
{
    keep_only(text, Keep::Word)
}

/// Deletes every character that is neither a word character nor whitespace.
pub fn remove_punctuation_marks(text: &str) -> (cleaned: String)
    ensures
        cleaned@ == kept(text@, Keep::WordOrWhitespace),
{
    keep_only(text, Keep::WordOrWhitespace)
}

/// Everything that is left after filtering is a character the rule keeps.
pub proof fn lemma_kept_all(s: Seq<char>, rule: Keep)
    ensures
        forall|i: int| 0 <= i < kept(s, rule).len() ==> rule.keeps(#[trigger] kept(s, rule)[i]),
        kept(s, rule).len() <= s.len(),
    decreases s.len(),
{
    reveal(Seq::filter);
    if s.len() > 0 {
        lemma_kept_all(s.drop_last(), rule);
    }
}

/// A text made of characters the rule keeps is left as it is.
pub proof fn lemma_kept_fixed(s: Seq<char>, rule: Keep)
    requires
        forall|i: int| 0 <= i < s.len() ==> rule.keeps(#[trigger] s[i]),
    ensures
        kept(s, rule) == s,
    decreases s.len(),
{
    reveal(Seq::filter);
    if s.len() > 0 {
        assert forall|i: int| 0 <= i < s.drop_last().len() implies rule.keeps(
            #[trigger] s.drop_last()[i],
        ) by {
            assert(s.drop_last()[i] == s[i]);
        }
        lemma_kept_fixed(s.drop_last(), rule);
        assert(s.drop_last().push(s.last()) =~= s);
    }
}

/// Filtering a filtered text changes nothing.
pub proof fn lemma_keep_idempotent(s: Seq<char>, rule: Keep)
    ensures
        kept(kept(s, rule), rule) == kept(s, rule),
{
    lemma_kept_all(s, rule);
    lemma_kept_fixed(kept(s, rule), rule);
}

} // verus!
