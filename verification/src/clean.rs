//! The cleaning rules as methods on text.

use crate::emoji::without_emojis;
use crate::filters::{kept, Keep};
use crate::folding::{folded, nfc_form};
use crate::links::{without_emails, without_urls};
use crate::runs::{squeezed, trimmed, trimmed_end, trimmed_start, Class};
use vstd::prelude::*;

verus! {

/// The thirteen cleaning rules. Each is a total function from text to text:
/// it reads the text, changes nothing outside its result, and has a result for
/// every text, the empty one included.
pub trait Clean {
    /// The characters of the text that the rules read.
    spec fn text(&self) -> Seq<char>;

    /// Strips leading and trailing whitespace.
    fn trim(&self) -> (cleaned: String)
        ensures
            cleaned@ == trimmed(self.text()),
    ;

    /// Strips leading whitespace.
    fn remove_leading_spaces(&self) -> (cleaned: String)
        ensures
            cleaned@ == trimmed_start(self.text()),
    ;

    /// Strips trailing whitespace.
    fn remove_trailing_spaces(&self) -> (cleaned: String)
        ensures
            cleaned@ == trimmed_end(self.text()),
    ;

    /// Replaces every run of two or more newlines by one newline.
    fn remove_empty_lines(&self) -> (cleaned: String)
        ensures
            cleaned@ == squeezed(self.text(), Class::Newline),
    ;

    /// Replaces every run of two or more whitespace characters by one space.
    fn convert_multiple_spaces_to_single(&self) -> (cleaned: String)
        ensures
            cleaned@ == squeezed(self.text(), Class::Whitespace),
    ;

    /// Deletes every emoji sequence.
    fn remove_all_emojis(&self) -> (cleaned: String)
        ensures
            cleaned@ == without_emojis(self.text()),
    ;

    /// Deletes every character that is neither a word character nor whitespace.
    fn remove_punctuation_marks(&self) -> (cleaned: String)
        ensures
            cleaned@ == kept(self.text(), Keep::WordOrWhitespace),
    ;

    /// Replaces accented and decorated letters by their base letters.
    fn remove_letter_accents(&self) -> (cleaned: String)
        ensures
            cleaned@ == folded(self.text()),
    ;

    /// Brings the text into Unicode Normalization Form C.
    fn normalize_unicode_characters(&self) -> (cleaned: String)
        ensures
            cleaned@ == nfc_form(self.text()),
            nfc_form(cleaned@) == cleaned@,
    ;

    /// Deletes every character beyond U+007F.
    fn remove_non_ascii_characters(&self) -> (cleaned: String)
        ensures
            cleaned@ == kept(self.text(), Keep::Ascii),
    ;

    /// Deletes every character that is not a word character.
    fn remove_non_alphanumeric_characters(&self) -> (cleaned: String)
        ensures
            cleaned@ == kept(self.text(), Keep::Word),
    ;

    /// Deletes every e-mail address.
    fn remove_all_emails(&self) -> (cleaned: String)
        ensures
            cleaned@ == without_emails(self.text()),
    ;

    /// Deletes every URL.
    fn remove_all_urls(&self) -> (cleaned: String)
        ensures
            cleaned@ == without_urls(self.text()),
    ;
}

impl Clean for String {
    open spec fn text(&self) -> Seq<char> {
        self@
    }

    fn trim(&self) -> (cleaned: String) {
        crate::runs::trim(self.as_str())
    }

    fn remove_leading_spaces(&self) -> (cleaned: String) {
        crate::runs::remove_leading_spaces(self.as_str())
    }

    fn remove_trailing_spaces(&self) -> (cleaned: String) {
        crate::runs::remove_trailing_spaces(self.as_str())
    }

    fn remove_empty_lines(&self) -> (cleaned: String) {
        crate::runs::remove_empty_lines(self.as_str())
    }

    fn convert_multiple_spaces_to_single(&self) -> (cleaned: String) {
        crate::runs::convert_multiple_spaces_to_single(self.as_str())
    }

    fn remove_all_emojis(&self) -> (cleaned: String) {
        crate::emoji::remove_all_emojis(self.as_str())
    }

    fn remove_punctuation_marks(&self) -> (cleaned: String) {
        crate::filters::remove_punctuation_marks(self.as_str())
    }

    fn remove_letter_accents(&self) -> (cleaned: String) {
        crate::folding::remove_letter_accents(self.as_str())
    }

    fn normalize_unicode_characters(&self) -> (cleaned: String) {
        crate::folding::normalize_unicode_characters(self.as_str())
    }

    fn remove_non_ascii_characters(&self) -> (cleaned: String) {
        crate::filters::remove_non_ascii_characters(self.as_str())
    }

    fn remove_non_alphanumeric_characters(&self) -> (cleaned: String) {
        crate::filters::remove_non_alphanumeric_characters(self.as_str())
    }

    fn remove_all_emails(&self) -> (cleaned: String) {
        crate::links::remove_all_emails(self.as_str())
    }

    fn remove_all_urls(&self) -> (cleaned: String) {
        crate::links::remove_all_urls(self.as_str())
    }
}

} // verus!
