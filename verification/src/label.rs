//! Readable labels for rule identifiers.

use vstd::prelude::*;
use vstd::string::StringExecFns;

verus! {

/// Whether `c` parts words of an identifier: the underscore, the space, the
/// tab, the line feed, the form feed and the carriage return.
pub open spec fn is_separator(c: char) -> bool {
    c == '_' || c == ' ' || c == '\t' || c == '\n' || c == '\u{c}' || c == '\r'
}

/// The characters that `char::to_uppercase` yields for `c`, in order.
pub uninterp spec fn uppercase_of(c: char) -> Seq<char>;

/// Collects what `char::to_uppercase` yields for `c`. Trusted: the outcome
/// is [`uppercase_of`] of `c`.
#[verifier::external_body]
fn uppercase(c: char) -> (upper: String)
    ensures
        upper@ == uppercase_of(c),
{
    c.to_uppercase().collect()
}

/// Whether a word has begun before position `n` of `s`.
pub open spec fn has_word(s: Seq<char>, n: int) -> bool {
    exists|j: int| 0 <= j < n && !is_separator(#[trigger] s[j])
}

/// What the label holds for the character at `i`. A separator writes
/// nothing. The first character of a word is written in upper case, after a
/// space where a word came before it. Any other character is written as it is.
pub open spec fn label_written(s: Seq<char>, i: int) -> Seq<char> {
    if is_separator(s[i]) {
        Seq::empty()
    } else if i > 0 && !is_separator(s[i - 1]) {
        seq![s[i]]
    } else if has_word(s, i) {
        seq![' '] + uppercase_of(s[i])
    } else {
        uppercase_of(s[i])
    }
}

/// What the label holds for the first `n` characters of `s`.
pub open spec fn label_upto(s: Seq<char>, n: int) -> Seq<char>
    decreases n,
{
    if n <= 0 {
        Seq::empty()
    } else {
        label_upto(s, n - 1) + label_written(s, n - 1)
    }
}

/// The label of the identifier `s`: its words, each with its first
/// character in upper case, with one space between them.
pub open spec fn label(s: Seq<char>) -> Seq<char> {
    label_upto(s, s.len() as int)
}

/// Decides [`is_separator`].
fn separator(c: char) -> (b: bool)
    ensures
        b == is_separator(c),
{
    c == '_' || c == ' ' || c == '\t' || c == '\n' || c == '\u{c}' || c == '\r'
}

/// Turns an identifier such as `remove_all_urls` into a label such as
/// `Remove All Urls`: the words between underscores and ASCII whitespace,
/// each with its first character in upper case, joined by single spaces.
pub fn snake_case_to_camel_case(s: &str) -> (labelled: String)
    ensures
        labelled@ == label(s@),
{
    broadcast use vstd::string::group_string_axioms;

    let mut labelled = String::new();
    let mut seen = false;
    let mut inside = false;
    for c in it: s.chars()
        invariant
            it.seq() == s@,
            labelled@ == label_upto(s@, it.index()),
            seen == has_word(s@, it.index()),
            inside == (it.index() > 0 && !is_separator(s@[it.index() - 1])),
    {
        let ghost i = it.index();
        if separator(c) {
            inside = false;
        } else {
            if inside {
                labelled.push(c);
            } else {
                if seen {
                    labelled.push(' ');
                }
                let upper = uppercase(c);
                labelled.append(upper.as_str());
            }
            seen = true;
            inside = true;
        }
        proof {
            if has_word(s@, i) {
                let j = choose|j: int| 0 <= j < i && !is_separator(#[trigger] s@[j]);
                assert(0 <= j < i + 1 && !is_separator(s@[j]));
            }
            if has_word(s@, i + 1) && is_separator(c) {
                let j = choose|j: int| 0 <= j < i + 1 && !is_separator(#[trigger] s@[j]);
                assert(j < i);
            }
            if !is_separator(c) {
                assert(!is_separator(s@[i]));
            }
            assert(labelled@ =~= label_upto(s@, i) + label_written(s@, i));
        }
    }
    labelled
}

} // verus!
