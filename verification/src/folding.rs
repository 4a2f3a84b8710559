//! Rules that rewrite letters: folding accented letters to base letters, and
//! Unicode normalization. The tables behind both belong to outside crates.

use crate::chars::{ascii, is_ascii};
use unicode_normalization::UnicodeNormalization;
use vstd::prelude::*;
use vstd::string::{StringExecFns, StringExecFnsIsAscii};
use vstd::utf8::is_ascii_chars;

verus! {

/// The entry of the diacritic-folding table of the `diacritics` crate for `c`:
/// what `diacritics::remove_diacritics` makes of the text that holds just `c`.
pub uninterp spec fn diacritic_table(c: char) -> Seq<char>;

/// Calls `diacritics::remove_diacritics` on the text that holds just `c`.
/// Trusted: the outcome is the table entry [`diacritic_table`] of `c`.
#[verifier::external_body]
fn table_entry(c: char) -> (entry: String)
    ensures
        entry@ == diacritic_table(c),
{
    diacritics::remove_diacritics(c.encode_utf8(&mut [0u8; 4]))
}

/// What folding makes of one character. An ASCII character stays. Any other
/// character is replaced by its table entry where that entry is made of ASCII
/// characters only (a base letter, two letters for a ligature, nothing for a
/// combining mark), and stays where the table holds anything else for it.
pub open spec fn folded_char(c: char) -> Seq<char> {
    if is_ascii(c) {
        seq![c]
    } else if is_ascii_chars(diacritic_table(c)) {
        diacritic_table(c)
    } else {
        seq![c]
    }
}

/// `s` with each character folded, in order.
pub open spec fn folded(s: Seq<char>) -> Seq<char>
    decreases s.len(),
{
    if s.len() == 0 {
        s
    } else {
        folded(s.drop_last()) + folded_char(s.last())
    }
}

/// Appends to `out` what folding makes of `c`.
fn push_folded(out: &mut String, c: char)
    ensures
        final(out)@ == old(out)@ + folded_char(c),
{
    if ascii(c) {
        out.push(c);
    } else {
        let entry = table_entry(c);
        if entry.is_ascii() {
            out.append(entry.as_str());
        } else {
            out.push(c);
        }
    }
}

/// Replaces accented and decorated letters by their base letters, character
/// by character; ASCII characters are never changed.
pub fn remove_letter_accents(text: &str) -> (cleaned: String)
    ensures
        cleaned@ == folded(text@),
{
    broadcast use vstd::string::group_string_axioms;

    let mut cleaned = String::new();
    for c in it: text.chars()
        invariant
            it.seq() == text@,
            cleaned@ == folded(text@.take(it.index())),
    {
        proof {
            assert(text@.take(it.index() + 1).drop_last() =~= text@.take(it.index()));
        }
        push_folded(&mut cleaned, c);
    }
    proof {
        assert(text@.take(text@.len() as int) =~= text@);
    }
    cleaned
}

/// Folding a text of one character gives what folding writes for the character.
pub proof fn lemma_folded_single(c: char)
    ensures
        folded(seq![c]) == folded_char(c),
{
    let one = seq![c];
    assert(one.drop_last() =~= Seq::<char>::empty());
    assert(folded(one.drop_last()) =~= Seq::<char>::empty());
    assert(folded(one) =~= folded_char(c));
}

/// Folding the text `a + b` folds `a`, then `b`.
pub proof fn lemma_folded_concat(a: Seq<char>, b: Seq<char>)
    ensures
        folded(a + b) == folded(a) + folded(b),
    decreases b.len(),
{
    if b.len() == 0 {
        assert(a + b =~= a);
        assert(folded(a) + folded(b) =~= folded(a));
    } else {
        assert((a + b).drop_last() =~= a + b.drop_last());
        lemma_folded_concat(a, b.drop_last());
        assert((folded(a) + folded(b.drop_last())) + folded_char(b.last()) =~= folded(a) + (folded(
            b.drop_last(),
        ) + folded_char(b.last())));
    }
}

/// An ASCII character comes through folding unchanged, at the position
/// that corresponds to its own: after what folding made of the characters
/// before it.
pub proof fn lemma_folded_keeps_ascii(s: Seq<char>, i: int)
    requires
        0 <= i < s.len(),
        is_ascii(s[i]),
    ensures
        folded(s.take(i)).len() < folded(s).len(),
        folded(s)[folded(s.take(i)).len() as int] == s[i],
{
    let before = s.take(i);
    let rest = s.skip(i + 1);
    assert(s =~= (before + seq![s[i]]) + rest);
    lemma_folded_concat(before + seq![s[i]], rest);
    lemma_folded_concat(before, seq![s[i]]);
    lemma_folded_single(s[i]);
}

/// A text of ASCII characters alone is folded to itself.
pub proof fn lemma_folded_ascii(s: Seq<char>)
    requires
        is_ascii_chars(s),
    ensures
        folded(s) == s,
    decreases s.len(),
{
    if s.len() > 0 {
        assert(is_ascii_chars(s.drop_last())) by {
            assert forall|i: int| 0 <= i < s.drop_last().len() implies '\0' <= (
            #[trigger] s.drop_last()[i]) <= '\u{7f}' by {
                assert(s.drop_last()[i] == s[i]);
            }
        }
        lemma_folded_ascii(s.drop_last());
        assert(is_ascii(s.last()));
        assert(s.drop_last() + seq![s.last()] =~= s);
    }
}

/// Where folding writes at most one character for each character of the
/// text, the folded text is no longer than the text.
pub proof fn lemma_folded_len(s: Seq<char>)
    requires
        forall|i: int| 0 <= i < s.len() ==> folded_char(#[trigger] s[i]).len() <= 1,
    ensures
        folded(s).len() <= s.len(),
    decreases s.len(),
{
    if s.len() > 0 {
        assert forall|i: int| 0 <= i < s.drop_last().len() implies folded_char(
            #[trigger] s.drop_last()[i],
        ).len() <= 1 by {
            assert(s.drop_last()[i] == s[i]);
        }
        lemma_folded_len(s.drop_last());
        assert(folded_char(s[s.len() - 1]).len() <= 1);
    }
}

/// What folding writes for a character is folded to itself.
pub proof fn lemma_folded_char_settled(c: char)
    ensures
        folded(folded_char(c)) == folded_char(c),
{
    let out = folded_char(c);
    if is_ascii(c) {
        assert(is_ascii_chars(out));
        lemma_folded_ascii(out);
    } else if is_ascii_chars(diacritic_table(c)) {
        lemma_folded_ascii(out);
    } else {
        lemma_folded_single(c);
    }
}

/// Folding a folded text changes nothing.
pub proof fn lemma_fold_idempotent(s: Seq<char>)
    ensures
        folded(folded(s)) == folded(s),
    decreases s.len(),
{
    if s.len() > 0 {
        lemma_fold_idempotent(s.drop_last());
        lemma_folded_char_settled(s.last());
        lemma_folded_concat(folded(s.drop_last()), folded_char(s.last()));
    }
}

/// `s` in Unicode Normalization Form C, as the `unicode-normalization` crate computes it.
pub uninterp spec fn nfc_form(s: Seq<char>) -> Seq<char>;

/// Whether `s` is in Normalization Form C: normalizing it changes nothing.
pub open spec fn is_nfc(s: Seq<char>) -> bool {
    nfc_form(s) == s
}

/// Collects what `UnicodeNormalization::nfc` yields for `text`. Trusted: the
/// outcome is [`nfc_form`] of the text, and it is in Normalization Form C.
#[verifier::external_body]
fn compose(text: &str) -> (r: String)
    ensures
        r@ == nfc_form(text@),
        is_nfc(r@),
{
    text.nfc().collect()
}

/// Brings `text` into Unicode Normalization Form C. The result is stable:
/// normalizing it again gives the same text.
pub fn normalize_unicode_characters(text: &str) -> (normalized: String)
    ensures
        normalized@ == nfc_form(text@),
        nfc_form(normalized@) == normalized@,
{
    compose(text)
}

} // verus!
