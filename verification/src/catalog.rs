//! The catalog: the closed set of cleaning rules, each with the identifier
//! callers know it by and the text-to-text function it stands for.

use crate::emoji::without_emojis;
use crate::filters::{kept, lemma_keep_idempotent, Keep};
use crate::folding::{folded, lemma_fold_idempotent, nfc_form};
use crate::links::{without_emails, without_urls};
use crate::runs::{
    lemma_squeeze_idempotent, lemma_trim_idempotent, squeezed, trimmed, trimmed_end, trimmed_start,
    Class,
};
use vstd::prelude::*;

verus! {

/// One cleaning rule of the catalog.
#[derive(Clone, Copy, Debug, PartialEq, Eq, Structural)]
pub enum Transformation {
    Trim,
    RemoveLeadingSpaces,
    RemoveTrailingSpaces,
    RemoveEmptyLines,
    ConvertMultipleSpacesToSingle,
    RemoveAllEmojis,
    RemoveAllEmails,
    RemoveAllUrls,
    RemoveNonAsciiCharacters,
    RemoveNonAlphanumericCharacters,
    RemovePunctuationMarks,
    RemoveLetterAccents,
    NormalizeUnicodeCharacters,
}

/// The rules of the catalog in their declared order, which is also the order
/// in which a pipeline built from an unordered selection applies them.
pub open spec fn catalog() -> Seq<Transformation> {
    seq![
        Transformation::Trim,
        Transformation::RemoveLeadingSpaces,
        Transformation::RemoveTrailingSpaces,
        Transformation::RemoveEmptyLines,
        Transformation::ConvertMultipleSpacesToSingle,
        Transformation::RemoveAllEmojis,
        Transformation::RemoveAllEmails,
        Transformation::RemoveAllUrls,
        Transformation::RemoveNonAsciiCharacters,
        Transformation::RemoveNonAlphanumericCharacters,
        Transformation::RemovePunctuationMarks,
        Transformation::RemoveLetterAccents,
        Transformation::NormalizeUnicodeCharacters,
    ]
}

/// Whether `name` is the identifier of a rule of the catalog.
pub open spec fn is_identifier(name: Seq<char>) -> bool {
    exists|t: Transformation| #[trigger] t.name() == name
}

/// The rule that `name` identifies, if it identifies one.
pub open spec fn rule_named(name: Seq<char>) -> Option<Transformation> {
    if is_identifier(name) {
        Some(choose|t: Transformation| #[trigger] t.name() == name)
    } else {
        None
    }
}

impl Transformation {
    /// The identifier of the rule.
    pub open spec fn name(self) -> Seq<char> {
        match self {
            Transformation::Trim => "trim"@,
            Transformation::RemoveLeadingSpaces => "remove_leading_spaces"@,
            Transformation::RemoveTrailingSpaces => "remove_trailing_spaces"@,
            Transformation::RemoveEmptyLines => "remove_empty_lines"@,
            Transformation::ConvertMultipleSpacesToSingle => "convert_multiple_spaces_to_single"@,
            Transformation::RemoveAllEmojis => "remove_all_emojis"@,
            Transformation::RemoveAllEmails => "remove_all_emails"@,
            Transformation::RemoveAllUrls => "remove_all_urls"@,
            Transformation::RemoveNonAsciiCharacters => "remove_non_ascii_characters"@,
            Transformation::RemoveNonAlphanumericCharacters => "remove_non_alphanumeric_characters"@,
            Transformation::RemovePunctuationMarks => "remove_punctuation_marks"@,
            Transformation::RemoveLetterAccents => "remove_letter_accents"@,
            Transformation::NormalizeUnicodeCharacters => "normalize_unicode_characters"@,
        }
    }

    /// What the rule makes of `text`.
    pub open spec fn output(self, text: Seq<char>) -> Seq<char> {
        match self {
            Transformation::Trim => trimmed(text),
            Transformation::RemoveLeadingSpaces => trimmed_start(text),
            Transformation::RemoveTrailingSpaces => trimmed_end(text),
            Transformation::RemoveEmptyLines => squeezed(text, Class::Newline),
            Transformation::ConvertMultipleSpacesToSingle => squeezed(text, Class::Whitespace),
            Transformation::RemoveAllEmojis => without_emojis(text),
            Transformation::RemoveAllEmails => without_emails(text),
            Transformation::RemoveAllUrls => without_urls(text),
            Transformation::RemoveNonAsciiCharacters => kept(text, Keep::Ascii),
            Transformation::RemoveNonAlphanumericCharacters => kept(text, Keep::Word),
            Transformation::RemovePunctuationMarks => kept(text, Keep::WordOrWhitespace),
            Transformation::RemoveLetterAccents => folded(text),
            Transformation::NormalizeUnicodeCharacters => nfc_form(text),
        }
    }

    /// Whether the rule is one of those whose work is done in one pass by
    /// what the rule itself says: trimming, squeezing, filtering and folding.
    /// The three rules that delete what a matcher finds are left out, since
    /// what is left after the deletion can hold a match of its own; so is
    /// normalization, whose stability is stated where it is computed.
    pub open spec fn settles(self) -> bool {
        match self {
            Transformation::RemoveAllEmojis => false,
            Transformation::RemoveAllEmails => false,
            Transformation::RemoveAllUrls => false,
            Transformation::NormalizeUnicodeCharacters => false,
            _ => true,
        }
    }

    /// The identifier of the rule.
    pub fn identifier(self) -> (id: &'static str)
        ensures
            id@ == self.name(),
    {
        match self {
            Transformation::Trim => "trim",
            Transformation::RemoveLeadingSpaces => "remove_leading_spaces",
            Transformation::RemoveTrailingSpaces => "remove_trailing_spaces",
            Transformation::RemoveEmptyLines => "remove_empty_lines",
            Transformation::ConvertMultipleSpacesToSingle => "convert_multiple_spaces_to_single",
            Transformation::RemoveAllEmojis => "remove_all_emojis",
            Transformation::RemoveAllEmails => "remove_all_emails",
            Transformation::RemoveAllUrls => "remove_all_urls",
            Transformation::RemoveNonAsciiCharacters => "remove_non_ascii_characters",
            Transformation::RemoveNonAlphanumericCharacters => "remove_non_alphanumeric_characters",
            Transformation::RemovePunctuationMarks => "remove_punctuation_marks",
            Transformation::RemoveLetterAccents => "remove_letter_accents",
            Transformation::NormalizeUnicodeCharacters => "normalize_unicode_characters",
        }
    }

    /// Applies the rule to `text`.
    pub fn apply(self, text: &str) -> (cleaned: String)
        ensures
            cleaned@ == self.output(text@),
    {
        match self {
            Transformation::Trim => crate::runs::trim(text),
            Transformation::RemoveLeadingSpaces => crate::runs::remove_leading_spaces(text),
            Transformation::RemoveTrailingSpaces => crate::runs::remove_trailing_spaces(text),
            Transformation::RemoveEmptyLines => crate::runs::remove_empty_lines(text),
            Transformation::ConvertMultipleSpacesToSingle => {
                crate::runs::convert_multiple_spaces_to_single(text)
            },
            Transformation::RemoveAllEmojis => crate::emoji::remove_all_emojis(text),
            Transformation::RemoveAllEmails => crate::links::remove_all_emails(text),
            Transformation::RemoveAllUrls => crate::links::remove_all_urls(text),
            Transformation::RemoveNonAsciiCharacters => {
                crate::filters::remove_non_ascii_characters(text)
            },
            Transformation::RemoveNonAlphanumericCharacters => {
                crate::filters::remove_non_alphanumeric_characters(text)
            },
            Transformation::RemovePunctuationMarks => {
                crate::filters::remove_punctuation_marks(text)
            },
            Transformation::RemoveLetterAccents => crate::folding::remove_letter_accents(text),
            Transformation::NormalizeUnicodeCharacters => {
                crate::folding::normalize_unicode_characters(text)
            },
        }
    }

    /// The rules of the catalog in their declared order.
    pub fn all() -> (rules: Vec<Transformation>)
        ensures
            rules@ == catalog(),
    {
        vec![
            Transformation::Trim,
            Transformation::RemoveLeadingSpaces,
            Transformation::RemoveTrailingSpaces,
            Transformation::RemoveEmptyLines,
            Transformation::ConvertMultipleSpacesToSingle,
            Transformation::RemoveAllEmojis,
            Transformation::RemoveAllEmails,
            Transformation::RemoveAllUrls,
            Transformation::RemoveNonAsciiCharacters,
            Transformation::RemoveNonAlphanumericCharacters,
            Transformation::RemovePunctuationMarks,
            Transformation::RemoveLetterAccents,
            Transformation::NormalizeUnicodeCharacters,
        ]
    }

    /// Looks `name` up in the catalog: the rule with that identifier, or
    /// `None` exactly where no rule has it.
    pub fn from_name(name: &str) -> (found: Option<Transformation>)
        ensures
            found == rule_named(name@),
            found matches Some(t) ==> t.name() == name@,
            found is None <==> !is_identifier(name@),
    {
        let rules = Transformation::all();
        let mut i: usize = 0;
        while i < rules.len()
            invariant
                i <= rules.len(),
                rules@ == catalog(),
                forall|j: int| 0 <= j < i ==> (#[trigger] rules@[j]).name() != name@,
            decreases rules.len() - i,
        {
            let rule = rules[i];
            if *rule.identifier() == *name {
                proof {
                    lemma_rule_named(rule);
                }
                return Some(rule);
            }
            i += 1;
        }
        proof {
            assert forall|t: Transformation| #[trigger] t.name() != name@ by {
                lemma_catalog_complete(t);
            }
        }
        None
    }
}

/// Applying a rule that settles to its own result changes nothing.
pub proof fn lemma_rule_idempotent(rule: Transformation, text: Seq<char>)
    requires
        rule.settles(),
    ensures
        rule.output(rule.output(text)) == rule.output(text),
{
    lemma_trim_idempotent(text);
    lemma_squeeze_idempotent(text, Class::Newline);
    lemma_squeeze_idempotent(text, Class::Whitespace);
    lemma_keep_idempotent(text, Keep::Ascii);
    lemma_keep_idempotent(text, Keep::Word);
    lemma_keep_idempotent(text, Keep::WordOrWhitespace);
    lemma_fold_idempotent(text);
}

/// Every rule stands in the catalog.
pub proof fn lemma_catalog_complete(t: Transformation)
    ensures
        exists|i: int| 0 <= i < catalog().len() && catalog()[i] == t,
        catalog().len() == 13,
{
    let i: int = match t {
        Transformation::Trim => 0,
        Transformation::RemoveLeadingSpaces => 1,
        Transformation::RemoveTrailingSpaces => 2,
        Transformation::RemoveEmptyLines => 3,
        Transformation::ConvertMultipleSpacesToSingle => 4,
        Transformation::RemoveAllEmojis => 5,
        Transformation::RemoveAllEmails => 6,
        Transformation::RemoveAllUrls => 7,
        Transformation::RemoveNonAsciiCharacters => 8,
        Transformation::RemoveNonAlphanumericCharacters => 9,
        Transformation::RemovePunctuationMarks => 10,
        Transformation::RemoveLetterAccents => 11,
        Transformation::NormalizeUnicodeCharacters => 12,
    };
    assert(catalog()[i] == t);
}

/// The identifiers, spelled out: a name is an identifier exactly if it is
/// one of these thirteen.
pub proof fn lemma_identifiers(name: Seq<char>)
    ensures
        is_identifier(name) <==> {
            ||| name == "trim"@
            ||| name == "remove_leading_spaces"@
            ||| name == "remove_trailing_spaces"@
            ||| name == "remove_empty_lines"@
            ||| name == "convert_multiple_spaces_to_single"@
            ||| name == "remove_all_emojis"@
            ||| name == "remove_all_emails"@
            ||| name == "remove_all_urls"@
            ||| name == "remove_non_ascii_characters"@
            ||| name == "remove_non_alphanumeric_characters"@
            ||| name == "remove_punctuation_marks"@
            ||| name == "remove_letter_accents"@
            ||| name == "normalize_unicode_characters"@
        },
{
    if is_identifier(name) {
        let t = choose|t: Transformation| #[trigger] t.name() == name;
        assert(t.name() == name);
    } else {
        assert forall|t: Transformation| #[trigger] t.name() != name by {}
        assert(Transformation::Trim.name() != name);
        assert(Transformation::RemoveLeadingSpaces.name() != name);
        assert(Transformation::RemoveTrailingSpaces.name() != name);
        assert(Transformation::RemoveEmptyLines.name() != name);
        assert(Transformation::ConvertMultipleSpacesToSingle.name() != name);
        assert(Transformation::RemoveAllEmojis.name() != name);
        assert(Transformation::RemoveAllEmails.name() != name);
        assert(Transformation::RemoveAllUrls.name() != name);
        assert(Transformation::RemoveNonAsciiCharacters.name() != name);
        assert(Transformation::RemoveNonAlphanumericCharacters.name() != name);
        assert(Transformation::RemovePunctuationMarks.name() != name);
        assert(Transformation::RemoveLetterAccents.name() != name);
        assert(Transformation::NormalizeUnicodeCharacters.name() != name);
    }
}

/// What is known of the thirteen identifiers: the length of each, and a
/// character that tells apart the two pairs of equal length.
proof fn lemma_identifier_shapes()
    ensures
        Transformation::Trim.name().len() == 4,
        Transformation::RemoveLeadingSpaces.name().len() == 21,
        Transformation::RemoveTrailingSpaces.name().len() == 22,
        Transformation::RemoveEmptyLines.name().len() == 18,
        Transformation::ConvertMultipleSpacesToSingle.name().len() == 33,
        Transformation::RemoveAllEmojis.name().len() == 17,
        Transformation::RemoveAllEmails.name().len() == 17,
        Transformation::RemoveAllUrls.name().len() == 15,
        Transformation::RemoveNonAsciiCharacters.name().len() == 27,
        Transformation::RemoveNonAlphanumericCharacters.name().len() == 34,
        Transformation::RemovePunctuationMarks.name().len() == 24,
        Transformation::RemoveLetterAccents.name().len() == 21,
        Transformation::NormalizeUnicodeCharacters.name().len() == 28,
        Transformation::RemoveAllEmojis.name()[13] == 'o',
        Transformation::RemoveAllEmails.name()[13] == 'a',
        Transformation::RemoveLeadingSpaces.name()[9] == 'a',
        Transformation::RemoveLetterAccents.name()[9] == 't',
{
    reveal_strlit("trim");
    reveal_strlit("remove_leading_spaces");
    reveal_strlit("remove_trailing_spaces");
    reveal_strlit("remove_empty_lines");
    reveal_strlit("convert_multiple_spaces_to_single");
    reveal_strlit("remove_all_emojis");
    reveal_strlit("remove_all_emails");
    reveal_strlit("remove_all_urls");
    reveal_strlit("remove_non_ascii_characters");
    reveal_strlit("remove_non_alphanumeric_characters");
    reveal_strlit("remove_punctuation_marks");
    reveal_strlit("remove_letter_accents");
    reveal_strlit("normalize_unicode_characters");
}

/// No two rules share an identifier.
pub proof fn lemma_names_distinct(a: Transformation, b: Transformation)
    requires
        a.name() == b.name(),
    ensures
        a == b,
{
    lemma_identifier_shapes();
}

/// An identifier names the rule it belongs to, and no other.
pub proof fn lemma_rule_named(t: Transformation)
    ensures
        is_identifier(t.name()),
        rule_named(t.name()) == Some(t),
{
    let found = choose|u: Transformation| #[trigger] u.name() == t.name();
    lemma_names_distinct(found, t);
}

} // verus!
