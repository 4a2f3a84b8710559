//! Character classes the cleaning rules are built on.

use vstd::prelude::*;

verus! {

/// The line feed character, the only character the blank-line rule treats as a newline.
pub open spec fn is_newline(c: char) -> bool {
    c == '\n'
}

/// Whether `c` has the Unicode `White_Space` property.
pub open spec fn is_whitespace(c: char) -> bool {
    let u = c as u32;
    ||| 0x09 <= u <= 0x0D
    ||| u == 0x20
    ||| u == 0x85
    ||| u == 0xA0
    ||| u == 0x1680
    ||| 0x2000 <= u <= 0x200A
    ||| u == 0x2028
    ||| u == 0x2029
    ||| u == 0x202F
    ||| u == 0x205F
    ||| u == 0x3000
}

/// Whether `c` is an ASCII character, that is, a code point of at most U+007F.
pub open spec fn is_ascii(c: char) -> bool {
    c <= '\u{7f}'
}

/// Whether `c` is an ASCII letter, an ASCII digit or the underscore.
pub open spec fn is_ascii_word_char(c: char) -> bool {
    ||| '0' <= c <= '9'
    ||| 'A' <= c <= 'Z'
    ||| 'a' <= c <= 'z'
    ||| c == '_'
}

/// What `regex_syntax::try_is_word_character` answers for `c`, with its error
/// as `None`: whether `c` is a Unicode word character (a letter, a mark, a
/// decimal digit, a connector or a join control), the class that `\w` stands
/// for in a regular expression.
pub uninterp spec fn unicode_word_class(c: char) -> Option<bool>;

/// Calls `regex_syntax::try_is_word_character`. Trusted: the answer is
/// [`unicode_word_class`] of `c`, `None` where the crate was built without
/// its word-character table.
#[verifier::external_body]
fn word_class(c: char) -> (class: Option<bool>)
    ensures
        class == unicode_word_class(c),
{
    regex_syntax::try_is_word_character(c).ok()
}

/// Whether `c` is a word character. Among ASCII characters these are the
/// letters, the digits and the underscore; beyond ASCII, the characters that
/// the Unicode word class holds.
pub open spec fn is_word_char(c: char) -> bool {
    if is_ascii(c) {
        is_ascii_word_char(c)
    } else {
        unicode_word_class(c) == Some(true)
    }
}

/// Decides [`is_whitespace`].
pub fn whitespace(c: char) -> (b: bool)
    ensures
        b == is_whitespace(c),
{
    let u: u32 = c as u32;
    (0x09 <= u && u <= 0x0D) || u == 0x20 || u == 0x85 || u == 0xA0 || u == 0x1680 || (0x2000 <= u
        && u <= 0x200A) || u == 0x2028 || u == 0x2029 || u == 0x202F || u == 0x205F || u == 0x3000
}

/// Decides [`is_ascii`].
pub fn ascii(c: char) -> (b: bool)
    ensures
        b == is_ascii(c),
{
    c <= '\u{7f}'
}

/// Decides [`is_word_char`].
pub fn word_char(c: char) -> (b: bool)
    ensures
        b == is_word_char(c),
{
    if c <= '\u{7f}' {
        ('0' <= c && c <= '9') || ('A' <= c && c <= 'Z') || ('a' <= c && c <= 'z') || c == '_'
    } else {
        match word_class(c) {
            Some(known) => known,
            None => false,
        }
    }
}

} // verus!
