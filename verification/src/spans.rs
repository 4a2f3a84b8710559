//! Deleting byte ranges from text without splitting a character.
//!
//! Matchers report what they found as ranges of byte offsets into the UTF-8
//! form of the text. The functions here turn such ranges into deletions of
//! whole characters: a character leaves exactly when the offset of its first
//! byte lies inside one of the ranges.

use vstd::prelude::*;
use vstd::utf8::*;

verus! {

/// The number of bytes of `c` in UTF-8.
pub open spec fn utf8_width(c: char) -> nat {
    encode_scalar(c as u32).len()
}

/// The number of bytes of `s` in UTF-8.
pub open spec fn byte_len(s: Seq<char>) -> nat {
    encode_utf8(s).len()
}

/// Whether `offset` lies in one of the half-open ranges `spans`.
pub open spec fn covered(spans: Seq<(usize, usize)>, offset: int) -> bool {
    exists|k: int| 0 <= k < spans.len() && (#[trigger] spans[k]).0 <= offset < spans[k].1
}

/// `s` without the characters whose first byte lies in one of `spans`.
pub open spec fn without_spans(s: Seq<char>, spans: Seq<(usize, usize)>) -> Seq<char>
    decreases s.len(),
{
    if s.len() == 0 {
        s
    } else {
        let kept = without_spans(s.drop_last(), spans);
        if covered(spans, byte_len(s.drop_last()) as int) {
            kept
        } else {
            kept.push(s.last())
        }
    }
}

/// Appending a character appends its bytes.
pub proof fn lemma_byte_len_push(s: Seq<char>, c: char)
    ensures
        byte_len(s.push(c)) == byte_len(s) + utf8_width(c),
        1 <= utf8_width(c) <= 4,
    decreases s.len(),
{
    char_is_scalar(c);
    if s.len() == 0 {
        assert(s.push(c).drop_first() =~= s);
        assert(encode_utf8(s) =~= Seq::<u8>::empty());
    } else {
        assert(s.push(c).drop_first() =~= s.drop_first().push(c));
        lemma_byte_len_push(s.drop_first(), c);
    }
}

/// A prefix of a text takes no more bytes than the text.
pub proof fn lemma_byte_len_prefix(s: Seq<char>, i: int)
    requires
        0 <= i <= s.len(),
    ensures
        byte_len(s.take(i)) <= byte_len(s),
    decreases s.len() - i,
{
    if i < s.len() {
        assert(s.take(i + 1) =~= s.take(i).push(s[i]));
        lemma_byte_len_push(s.take(i), s[i]);
        lemma_byte_len_prefix(s, i + 1);
    } else {
        assert(s.take(i) =~= s);
    }
}

/// A longer prefix of a text takes more bytes than a shorter one.
pub proof fn lemma_byte_len_increases(s: Seq<char>, i: int, j: int)
    requires
        0 <= i < j <= s.len(),
    ensures
        byte_len(s.take(i)) < byte_len(s.take(j)),
    decreases j - i,
{
    assert(s.take(j) =~= s.take(j - 1).push(s[j - 1]));
    lemma_byte_len_push(s.take(j - 1), s[j - 1]);
    if i < j - 1 {
        lemma_byte_len_increases(s, i, j - 1);
    }
}

/// Without ranges nothing is deleted.
pub proof fn lemma_no_spans(s: Seq<char>)
    ensures
        without_spans(s, Seq::empty()) == s,
    decreases s.len(),
{
    if s.len() > 0 {
        lemma_no_spans(s.drop_last());
        assert(s.drop_last().push(s.last()) =~= s);
    }
}

/// Deleting one range cuts out exactly the characters it spans. Where the
/// range starts at the byte where `cut` starts in `before + cut + after` and
/// ends at the byte where `cut` ends, what is left is `before + after`:
/// every character around the range stays whole and in place, whatever
/// number of bytes it takes.
pub proof fn lemma_span_cut(
    before: Seq<char>,
    cut: Seq<char>,
    after: Seq<char>,
    start: usize,
    end: usize,
)
    requires
        start == byte_len(before),
        end == byte_len(before + cut),
    ensures
        without_spans(before + cut + after, seq![(start, end)]) == before + after,
{
    let s = before + cut + after;
    lemma_cut_upto(before, cut, after, start, end, s.len() as int);
    assert(s.take(s.len() as int) =~= s);
    assert(after.take(after.len() as int) =~= after);
}

/// What is left of the first `n` characters of `before + cut + after` when
/// the range of `cut` is deleted.
proof fn lemma_cut_upto(
    before: Seq<char>,
    cut: Seq<char>,
    after: Seq<char>,
    start: usize,
    end: usize,
    n: int,
)
    requires
        start == byte_len(before),
        end == byte_len(before + cut),
        0 <= n <= before.len() + cut.len() + after.len(),
    ensures
        without_spans((before + cut + after).take(n), seq![(start, end)]) == if n
            <= before.len() {
            before.take(n)
        } else if n <= before.len() + cut.len() {
            before
        } else {
            before + after.take(n - before.len() - cut.len())
        },
    decreases n,
{
    let s = before + cut + after;
    let spans = seq![(start, end)];
    let a = before.len() as int;
    let b = cut.len() as int;
    if n == 0 {
        assert(s.take(0) =~= Seq::<char>::empty());
        assert(before.take(0) =~= Seq::<char>::empty());
    } else {
        let i = n - 1;
        lemma_cut_upto(before, cut, after, start, end, i);
        assert(s.take(n).drop_last() =~= s.take(i));
        assert(s.take(n).last() == s[i]);
        assert(s.take(a) =~= before);
        assert(s.take(a + b) =~= before + cut);
        let offset = byte_len(s.take(i)) as int;
        assert(spans[0] == (start, end));
        if i < a {
            lemma_byte_len_increases(s, i, a);
            assert(!covered(spans, offset));
            assert(before.take(n) =~= before.take(i).push(s[i]));
        } else if i < a + b {
            if a < i {
                lemma_byte_len_increases(s, a, i);
            }
            lemma_byte_len_increases(s, i, a + b);
            assert(covered(spans, offset));
            assert(before.take(a) =~= before);
        } else {
            if a + b < i {
                lemma_byte_len_increases(s, a + b, i);
            }
            assert(!covered(spans, offset));
            assert(before.take(a) =~= before);
            assert(after.take(0) =~= Seq::<char>::empty());
            assert(before + after.take(0) =~= before);
            assert(after.take(n - a - b) =~= after.take(i - a - b).push(s[i]));
            assert(before + after.take(n - a - b) =~= (before + after.take(i - a - b)).push(s[i]));
        }
    }
}

/// The number of bytes of `c` in UTF-8.
pub fn width_of(c: char) -> (n: usize)
    ensures
        n == utf8_width(c),
        1 <= n <= 4,
{
    proof {
        char_is_scalar(c);
    }
    let u: u32 = c as u32;
    if u <= 0x7F {
        1
    } else if u <= 0x7FF {
        2
    } else if u <= 0xFFFF {
        3
    } else {
        4
    }
}

/// For each offset below `total`, whether one of `spans` covers it.
fn coverage(spans: &Vec<(usize, usize)>, total: usize) -> (mask: Vec<bool>)
    ensures
        mask.len() == total,
        forall|i: int| 0 <= i < total ==> mask[i] == covered(spans@, i),
{
    let mut mask: Vec<bool> = Vec::new();
    let mut n: usize = 0;
    while n < total
        invariant
            n <= total,
            mask.len() == n,
            forall|i: int| 0 <= i < n ==> !mask[i],
        decreases total - n,
    {
        mask.push(false);
        n += 1;
    }
    let mut k: usize = 0;
    while k < spans.len()
        invariant
            k <= spans.len(),
            mask.len() == total,
            forall|i: int| 0 <= i < total ==> mask[i] == covered(spans@.take(k as int), i),
        decreases spans.len() - k,
    {
        let (start, end) = spans[k];
        let stop: usize = if end < total { end } else { total };
        let ghost before = mask@;
        let mut j: usize = start;
        while j < stop
            invariant
                stop <= total,
                stop <= end,
                start <= j,
                j == start || j <= stop,
                mask.len() == total,
                before.len() == total,
                forall|i: int|
                    0 <= i < total ==> #[trigger] mask[i] == (before[i] || (start <= i && i < j)),
            decreases stop - j,
        {
            mask.set(j, true);
            j += 1;
        }
        proof {
            let upto = spans@.take(k as int);
            let next = spans@.take(k as int + 1);
            assert(next =~= upto.push(spans@[k as int]));
            assert forall|i: int| 0 <= i < total implies mask[i] == covered(next, i) by {
                if covered(upto, i) {
                    let w = choose|w: int| 0 <= w < upto.len() && (#[trigger] upto[w]).0 <= i < upto[w].1;
                    assert(next[w] == upto[w]);
                }
                if start <= i < end {
                    assert(next[k as int] == (start, end));
                }
                if covered(next, i) {
                    let w = choose|w: int| 0 <= w < next.len() && (#[trigger] next[w]).0 <= i < next[w].1;
                    if w < k {
                        assert(upto[w] == next[w]);
                    }
                }
            }
        }
        k += 1;
    }
    proof {
        assert(spans@.take(spans.len() as int) =~= spans@);
    }
    mask
}

/// Deletes from `text` every character whose first byte lies in one of the
/// half-open byte ranges `spans`. Ranges may overlap, come in any order, and
/// reach past the end of the text.
pub fn remove_spans(text: &str, spans: &Vec<(usize, usize)>) -> (cleaned: String)
    ensures
        cleaned@ == without_spans(text@, spans@),
{
    broadcast use vstd::string::group_string_axioms;
    broadcast use vstd::slice::group_slice_axioms;

    let total: usize = text.as_bytes().len();
    assert(total == byte_len(text@));
    let mask = coverage(spans, total);
    let mut cleaned = String::new();
    let mut offset: usize = 0;
    for c in it: text.chars()
        invariant
            it.seq() == text@,
            total == byte_len(text@),
            mask.len() == total,
            forall|i: int| 0 <= i < total ==> mask[i] == covered(spans@, i),
            offset == byte_len(text@.take(it.index())),
            cleaned@ == without_spans(text@.take(it.index()), spans@),
    {
        proof {
            let i = it.index();
            assert(text@.take(i + 1) =~= text@.take(i).push(text@[i]));
            assert(text@.take(i + 1).drop_last() =~= text@.take(i));
            lemma_byte_len_push(text@.take(i), c);
            lemma_byte_len_prefix(text@, i + 1);
        }
        if !mask[offset] {
            cleaned.push(c);
        }
        offset += width_of(c);
    }
    proof {
        assert(text@.take(text@.len() as int) =~= text@);
    }
    cleaned
}

} // verus!
