//! Rules about runs of characters of one class: trimming whitespace at the
//! ends of a text, and squeezing runs of newlines or of whitespace inside it.

use crate::chars::{is_newline, is_whitespace, whitespace};
use crate::text::{chars_of, string_of_range};
use vstd::prelude::*;

verus! {

/// `s` without the whitespace it starts with.
pub open spec fn trimmed_start(s: Seq<char>) -> Seq<char>
    decreases s.len(),
{
    if s.len() > 0 && is_whitespace(s.first()) {
        trimmed_start(s.drop_first())
    } else {
        s
    }
}

/// `s` without the whitespace it ends with.
pub open spec fn trimmed_end(s: Seq<char>) -> Seq<char>
    decreases s.len(),
{
    if s.len() > 0 && is_whitespace(s.last()) {
        trimmed_end(s.drop_last())
    } else {
        s
    }
}

/// `s` without the whitespace at either end.
pub open spec fn trimmed(s: Seq<char>) -> Seq<char> {
    trimmed_end(trimmed_start(s))
}

/// Strips leading whitespace.
pub fn remove_leading_spaces(text: &str) -> (cleaned: String)
    ensures
        cleaned@ == trimmed_start(text@),
{
    let chars = chars_of(text);
    let mut i: usize = 0;
    proof {
        assert(chars@.skip(0) =~= chars@);
    }
    while i < chars.len() && whitespace(chars[i])
        invariant
            i <= chars.len(),
            trimmed_start(chars@) == trimmed_start(chars@.skip(i as int)),
        decreases chars.len() - i,
    {
        proof {
            assert(chars@.skip(i as int).drop_first() =~= chars@.skip(i + 1));
        }
        i += 1;
    }
    proof {
        assert(chars@.skip(i as int) =~= chars@.subrange(i as int, chars.len() as int));
    }
    string_of_range(&chars, i, chars.len())
}

/// Strips trailing whitespace.
pub fn remove_trailing_spaces(text: &str) -> (cleaned: String)
    ensures
        cleaned@ == trimmed_end(text@),
{
    let chars = chars_of(text);
    let mut j: usize = chars.len();
    proof {
        assert(chars@.take(j as int) =~= chars@);
    }
    while j > 0 && whitespace(chars[j - 1])
        invariant
            j <= chars.len(),
            trimmed_end(chars@) == trimmed_end(chars@.take(j as int)),
        decreases j,
    {
        proof {
            assert(chars@.take(j as int).drop_last() =~= chars@.take(j - 1));
        }
        j -= 1;
    }
    proof {
        assert(chars@.take(j as int) =~= chars@.subrange(0, j as int));
    }
    string_of_range(&chars, 0, j)
}

/// Strips leading and trailing whitespace.
pub fn trim(text: &str) -> (cleaned: String)
    ensures
        cleaned@ == trimmed(text@),
{
    let chars = chars_of(text);
    let mut i: usize = 0;
    proof {
        assert(chars@.skip(0) =~= chars@);
    }
    while i < chars.len() && whitespace(chars[i])
        invariant
            i <= chars.len(),
            trimmed_start(chars@) == trimmed_start(chars@.skip(i as int)),
        decreases chars.len() - i,
    {
        proof {
            assert(chars@.skip(i as int).drop_first() =~= chars@.skip(i + 1));
        }
        i += 1;
    }
    let ghost rest = chars@.skip(i as int);
    let mut j: usize = chars.len();
    proof {
        assert(rest.take(j - i) =~= rest);
    }
    while j > i && whitespace(chars[j - 1])
        invariant
            i <= j <= chars.len(),
            rest == chars@.skip(i as int),
            trimmed_end(rest) == trimmed_end(rest.take(j - i)),
        decreases j,
    {
        proof {
            assert(rest.take(j - i).drop_last() =~= rest.take(j - i - 1));
        }
        j -= 1;
    }
    proof {
        assert(rest.take(j - i) =~= chars@.subrange(i as int, j as int));
    }
    string_of_range(&chars, i, j)
}

/// A class of characters whose runs are squeezed.
#[derive(Clone, Copy, Debug, PartialEq, Eq, Structural)]
pub enum Class {
    /// The line feed.
    Newline,
    /// Unicode whitespace, line feeds and tabs among it.
    Whitespace,
}

impl Class {
    /// Whether `c` belongs to the class.
    pub open spec fn holds(self, c: char) -> bool {
        match self {
            Class::Newline => is_newline(c),
            Class::Whitespace => is_whitespace(c),
        }
    }

    /// The character that takes the place of a run of two or more.
    pub open spec fn filler(self) -> char {
        match self {
            Class::Newline => '\n',
            Class::Whitespace => ' ',
        }
    }

    /// Decides [`Class::holds`].
    pub fn has(self, c: char) -> (b: bool)
        ensures
            b == self.holds(c),
    {
        match self {
            Class::Newline => c == '\n',
            Class::Whitespace => whitespace(c),
        }
    }

    /// Gives [`Class::filler`].
    pub fn fill(self) -> (c: char)
        ensures
            c == self.filler(),
            self.holds(c),
    {
        match self {
            Class::Newline => '\n',
            Class::Whitespace => ' ',
        }
    }
}

/// What squeezing writes for the character at `i`. A character outside the
/// class stays. Of a run of the class, only its first character writes
/// anything: the filler where the run goes on, the character itself where
/// the run is that one character.
pub open spec fn written(s: Seq<char>, i: int, class: Class) -> Seq<char> {
    if !class.holds(s[i]) {
        seq![s[i]]
    } else if i > 0 && class.holds(s[i - 1]) {
        Seq::empty()
    } else if i + 1 < s.len() && class.holds(s[i + 1]) {
        seq![class.filler()]
    } else {
        seq![s[i]]
    }
}

/// What squeezing writes for the first `n` characters of `s`.
pub open spec fn squeezed_upto(s: Seq<char>, n: int, class: Class) -> Seq<char>
    decreases n,
{
    if n <= 0 {
        Seq::empty()
    } else {
        squeezed_upto(s, n - 1, class) + written(s, n - 1, class)
    }
}

/// `s` with every maximal run of two or more characters of `class` replaced
/// by one filler character; a character of the class that stands alone stays.
pub open spec fn squeezed(s: Seq<char>, class: Class) -> Seq<char> {
    squeezed_upto(s, s.len() as int, class)
}

/// Replaces every maximal run of two or more characters of `class` in `text`
/// by the filler of the class.
pub fn squeeze(text: &str, class: Class) -> (cleaned: String)
    ensures
        cleaned@ == squeezed(text@, class),
{
    let chars = chars_of(text);
    let mut cleaned = String::new();
    let mut i: usize = 0;
    while i < chars.len()
        invariant
            i <= chars.len(),
            cleaned@ == squeezed_upto(chars@, i as int, class),
        decreases chars.len() - i,
    {
        let c = chars[i];
        if !class.has(c) {
            cleaned.push(c);
        } else if i > 0 && class.has(chars[i - 1]) {
        } else if i + 1 < chars.len() && class.has(chars[i + 1]) {
            cleaned.push(class.fill());
        } else {
            cleaned.push(c);
        }
        i += 1;
    }
    cleaned
}

/// Replaces every run of two or more newlines by one newline.
pub fn remove_empty_lines(text: &str) -> (cleaned: String)
    ensures
        cleaned@ == squeezed(text@, Class::Newline),
{
    squeeze(text, Class::Newline)
}

/// Replaces every run of two or more whitespace characters by one space.
pub fn convert_multiple_spaces_to_single(text: &str) -> (cleaned: String)
    ensures
        cleaned@ == squeezed(text@, Class::Whitespace),
{
    squeeze(text, Class::Whitespace)
}

/// What leading whitespace is stripped: the result is the text from some
/// position `n` on, everything before `n` is whitespace, and the character
/// at `n`, if there is one, is not.
pub proof fn lemma_trimmed_start(s: Seq<char>) -> (n: int)
    ensures
        0 <= n <= s.len(),
        trimmed_start(s) == s.skip(n),
        forall|j: int| 0 <= j < n ==> is_whitespace(#[trigger] s[j]),
        n < s.len() ==> !is_whitespace(s[n]),
    decreases s.len(),
{
    if s.len() > 0 && is_whitespace(s.first()) {
        let m = lemma_trimmed_start(s.drop_first());
        assert(s.drop_first().skip(m) =~= s.skip(m + 1));
        assert forall|j: int| 0 <= j < m + 1 implies is_whitespace(#[trigger] s[j]) by {
            if j > 0 {
                assert(s[j] == s.drop_first()[j - 1]);
            }
        }
        if m + 1 < s.len() {
            assert(s[m + 1] == s.drop_first()[m]);
        }
        m + 1
    } else {
        assert(s.skip(0) =~= s);
        0
    }
}

/// What trailing whitespace is stripped: the result is the text up to some
/// position `n`, everything from `n` on is whitespace, and the character
/// before `n`, if there is one, is not.
pub proof fn lemma_trimmed_end(s: Seq<char>) -> (n: int)
    ensures
        0 <= n <= s.len(),
        trimmed_end(s) == s.take(n),
        forall|j: int| n <= j < s.len() ==> is_whitespace(#[trigger] s[j]),
        0 < n ==> !is_whitespace(s[n - 1]),
    decreases s.len(),
{
    if s.len() > 0 && is_whitespace(s.last()) {
        let m = lemma_trimmed_end(s.drop_last());
        assert(s.drop_last().take(m) =~= s.take(m));
        assert forall|j: int| m <= j < s.len() implies is_whitespace(#[trigger] s[j]) by {
            if j < s.len() - 1 {
                assert(s[j] == s.drop_last()[j]);
            }
        }
        if 0 < m {
            assert(s[m - 1] == s.drop_last()[m - 1]);
        }
        m
    } else {
        assert(s.take(s.len() as int) =~= s);
        s.len() as int
    }
}

/// A trimmed text neither starts nor ends with whitespace.
pub proof fn lemma_trimmed_ends(s: Seq<char>)
    ensures
        trimmed(s).len() > 0 ==> !is_whitespace(trimmed(s).first()) && !is_whitespace(
            trimmed(s).last(),
        ),
        trimmed_start(s).len() > 0 ==> !is_whitespace(trimmed_start(s).first()),
        trimmed_end(s).len() > 0 ==> !is_whitespace(trimmed_end(s).last()),
{
    let n = lemma_trimmed_start(s);
    let m = lemma_trimmed_end(s);
    let t = trimmed_start(s);
    let k = lemma_trimmed_end(t);
}

/// Trimming a trimmed text changes nothing, at either end or at both.
pub proof fn lemma_trim_idempotent(s: Seq<char>)
    ensures
        trimmed_start(trimmed_start(s)) == trimmed_start(s),
        trimmed_end(trimmed_end(s)) == trimmed_end(s),
        trimmed(trimmed(s)) == trimmed(s),
{
    lemma_trimmed_ends(s);
}

/// Squeezing the first `n` characters reads nothing beyond the character at `n`.
proof fn lemma_upto_agrees(s: Seq<char>, t: Seq<char>, from: int, n: int, class: Class)
    requires
        0 <= from,
        0 <= n <= t.len(),
        from + n <= s.len(),
        forall|j: int| 0 <= j < n ==> written(s, from + j, class) == #[trigger] written(t, j, class),
    ensures
        squeezed_upto(s, from + n, class) == squeezed_upto(s, from, class) + squeezed_upto(
            t,
            n,
            class,
        ),
    decreases n,
{
    if n > 0 {
        lemma_upto_agrees(s, t, from, n - 1, class);
        assert(written(s, from + (n - 1), class) == written(t, n - 1, class));
        assert(squeezed_upto(s, from + n, class) =~= squeezed_upto(s, from, class) + squeezed_upto(
            t,
            n,
            class,
        ));
    } else {
        assert(squeezed_upto(s, from, class) + squeezed_upto(t, 0, class) =~= squeezed_upto(
            s,
            from,
            class,
        ));
    }
}

/// Whether no two neighbours in `s` both belong to `class`.
pub open spec fn run_free(s: Seq<char>, class: Class) -> bool {
    forall|j: int|
        0 <= j && j + 1 < s.len() ==> !(class.holds(#[trigger] s[j]) && class.holds(s[j + 1]))
}

/// What squeezing the first `n` characters writes ends as those characters
/// end: in the class or outside it. Nothing it writes holds two neighbours
/// of the class.
proof fn lemma_upto_run_free(s: Seq<char>, n: int, class: Class)
    requires
        0 <= n <= s.len(),
    ensures
        run_free(squeezed_upto(s, n, class), class),
        n > 0 ==> squeezed_upto(s, n, class).len() > 0 && class.holds(
            squeezed_upto(s, n, class).last(),
        ) == class.holds(s[n - 1]),
    decreases n,
{
    if n > 0 {
        lemma_upto_run_free(s, n - 1, class);
        let before = squeezed_upto(s, n - 1, class);
        let now = squeezed_upto(s, n, class);
        assert(now == before + written(s, n - 1, class));
        assert(class.holds(class.filler()));
        assert forall|j: int| 0 <= j && j + 1 < now.len() implies !(class.holds(#[trigger] now[j])
            && class.holds(now[j + 1])) by {
            if j + 1 < before.len() {
                assert(now[j] == before[j]);
                assert(now[j + 1] == before[j + 1]);
            }
        }
    }
}

/// After squeezing, no two neighbours both belong to the class: every run
/// has become a single character.
pub proof fn lemma_squeezed_run_free(s: Seq<char>, class: Class)
    ensures
        run_free(squeezed(s, class), class),
{
    lemma_upto_run_free(s, s.len() as int, class);
}

/// A text without runs is squeezed to itself.
pub proof fn lemma_squeezed_fixed(s: Seq<char>, class: Class)
    requires
        run_free(s, class),
    ensures
        squeezed(s, class) == s,
{
    lemma_upto_fixed(s, s.len() as int, class);
    assert(s.take(s.len() as int) =~= s);
}

proof fn lemma_upto_fixed(s: Seq<char>, n: int, class: Class)
    requires
        run_free(s, class),
        0 <= n <= s.len(),
    ensures
        squeezed_upto(s, n, class) == s.take(n),
    decreases n,
{
    if n > 0 {
        lemma_upto_fixed(s, n - 1, class);
        if class.holds(s[n - 1]) {
            if n - 1 > 0 {
                assert(!(class.holds(s[n - 2]) && class.holds(s[n - 2 + 1])));
            }
            if n < s.len() {
                assert(!(class.holds(s[n - 1]) && class.holds(s[n - 1 + 1])));
            }
        }
        assert(s.take(n) =~= s.take(n - 1) + seq![s[n - 1]]);
    } else {
        assert(s.take(0) =~= Seq::<char>::empty());
    }
}

/// Squeezing a squeezed text changes nothing.
pub proof fn lemma_squeeze_idempotent(s: Seq<char>, class: Class)
    ensures
        squeezed(squeezed(s, class), class) == squeezed(s, class),
{
    lemma_squeezed_run_free(s, class);
    lemma_squeezed_fixed(squeezed(s, class), class);
}

/// Whether every character of `s` belongs to `class`.
pub open spec fn all_in(s: Seq<char>, class: Class) -> bool {
    forall|j: int| 0 <= j < s.len() ==> class.holds(#[trigger] s[j])
}

/// What becomes of one run. Where `run` is a maximal run of the class
/// between `before` and `after` (the text before it does not end in the
/// class, the text after it does not start in it), squeezing writes for it
/// exactly one character: the filler where the run has two characters or
/// more, the run's own character where it has one. The texts on either side
/// are squeezed as if they stood alone.
pub proof fn lemma_squeezed_run(before: Seq<char>, run: Seq<char>, after: Seq<char>, class: Class)
    requires
        run.len() >= 1,
        all_in(run, class),
        before.len() > 0 ==> !class.holds(before.last()),
        after.len() > 0 ==> !class.holds(after.first()),
    ensures
        squeezed(before + run + after, class) == squeezed(before, class) + seq![
            if run.len() >= 2 {
                class.filler()
            } else {
                run[0]
            },
        ] + squeezed(after, class),
{
    let s = before + run + after;
    let a = before.len() as int;
    let r = run.len() as int;
    let b = after.len() as int;
    assert forall|j: int| 0 <= j < a implies written(s, 0 + j, class) == #[trigger] written(
        before,
        j,
        class,
    ) by {
        assert(s[j] == before[j]);
        if class.holds(before[j]) {
            assert(j + 1 < a);
            assert(s[j + 1] == before[j + 1]);
            if j > 0 {
                assert(s[j - 1] == before[j - 1]);
            }
        }
    }
    lemma_upto_agrees(s, before, 0, a, class);
    assert(squeezed_upto(s, 0, class) + squeezed(before, class) =~= squeezed(before, class));
    let kept = seq![if r >= 2 { class.filler() } else { run[0] }];
    lemma_run_written(s, a, r, class, kept);
    assert forall|j: int| 0 <= j < b implies written(s, a + r + j, class) == #[trigger] written(
        after,
        j,
        class,
    ) by {
        assert(s[a + r + j] == after[j]);
        if class.holds(after[j]) {
            assert(j > 0);
            assert(s[a + r + j - 1] == after[j - 1]);
            if j + 1 < b {
                assert(s[a + r + j + 1] == after[j + 1]);
            }
        }
    }
    lemma_upto_agrees(s, after, a + r, b, class);
}

/// Squeezing through a run that starts at `a` and has `r` characters adds
/// one character to what was written before the run.
proof fn lemma_run_written(s: Seq<char>, a: int, r: int, class: Class, kept: Seq<char>)
    requires
        0 <= a,
        1 <= r,
        a + r <= s.len(),
        forall|j: int| a <= j < a + r ==> class.holds(#[trigger] s[j]),
        a > 0 ==> !class.holds(s[a - 1]),
        a + r < s.len() ==> !class.holds(s[a + r]),
        kept == seq![if r >= 2 { class.filler() } else { s[a] }],
    ensures
        squeezed_upto(s, a + r, class) == squeezed_upto(s, a, class) + kept,
    decreases r,
{
    if r == 1 {
        assert(written(s, a, class) == kept);
    } else {
        assert(class.holds(s[a + 1]));
        assert(written(s, a, class) == kept);
        lemma_run_tail(s, a, r, class);
        assert(squeezed_upto(s, a + 1, class) == squeezed_upto(s, a, class) + kept);
    }
}

/// Past its first character a run writes nothing.
proof fn lemma_run_tail(s: Seq<char>, a: int, r: int, class: Class)
    requires
        0 <= a,
        1 <= r,
        a + r <= s.len(),
        forall|j: int| a <= j < a + r ==> class.holds(#[trigger] s[j]),
    ensures
        squeezed_upto(s, a + r, class) == squeezed_upto(s, a + 1, class),
    decreases r,
{
    if r > 1 {
        lemma_run_tail(s, a, r - 1, class);
        assert(class.holds(s[a + r - 1]));
        assert(class.holds(s[a + r - 2]));
        assert(written(s, a + r - 1, class) =~= Seq::<char>::empty());
        assert(squeezed_upto(s, a + r, class) =~= squeezed_upto(s, a + r - 1, class));
    }
}

} // verus!
