//! Splitting, trimming and comparing of strings.
//!
//! A string is the sequence of its characters. The functions behave as the
//! methods of `str` of the same names do.

use vstd::prelude::*;

verus! {

/// The view of an optional string.
pub open spec fn opt(s: Option<String>) -> Option<Seq<char>> {
    match s {
        Some(s) => Some(s@),
        None => None,
    }
}

/// The number of leading characters of `s` that satisfy `p`.
pub open spec fn run(s: Seq<char>, p: spec_fn(char) -> bool) -> nat
    decreases s.len(),
{
    if s.len() > 0 && p(s[0]) {
        1 + run(s.skip(1), p)
    } else {
        0
    }
}

/// Being another character than `c`.
pub open spec fn other_than(c: char) -> spec_fn(char) -> bool {
    |x: char| x != c
}

/// Being part of a word.
pub open spec fn word_char() -> spec_fn(char) -> bool {
    |x: char| !whitespace(x)
}

/// The characters with the Unicode property `White_Space`.
pub open spec fn whitespace(c: char) -> bool {
    ||| '\u{9}' <= c <= '\u{d}'
    ||| c == ' '
    ||| c == '\u{85}'
    ||| c == '\u{a0}'
    ||| c == '\u{1680}'
    ||| '\u{2000}' <= c <= '\u{200a}'
    ||| c == '\u{2028}'
    ||| c == '\u{2029}'
    ||| c == '\u{202f}'
    ||| c == '\u{205f}'
    ||| c == '\u{3000}'
}

/// What stands before and after the first `c` in `s`.
pub open spec fn cut(s: Seq<char>, c: char) -> Option<(Seq<char>, Seq<char>)> {
    let n = run(s, other_than(c)) as int;
    if n < s.len() {
        Some((s.take(n), s.skip(n + 1)))
    } else {
        None
    }
}

/// The pieces of `s` between the occurrences of `c`: one more than there are
/// occurrences, empty ones included.
pub open spec fn pieces(s: Seq<char>, c: char) -> Seq<Seq<char>>
    decreases s.len(),
{
    match cut(s, c) {
        Some((head, tail)) => seq![head] + pieces(tail, c),
        None => seq![s],
    }
}

/// The maximal stretches of `s` without whitespace, none of them empty.
pub open spec fn words(s: Seq<char>) -> Seq<Seq<char>>
    decreases s.len(),
{
    if s.len() == 0 {
        Seq::empty()
    } else if whitespace(s[0]) {
        words(s.skip(1))
    } else {
        let n = run(s, word_char()) as int;
        proof {
            lemma_run(s, word_char());
        }
        seq![s.take(n)] + words(s.skip(n))
    }
}

/// `s` without its leading whitespace.
pub open spec fn trimmed_start(s: Seq<char>) -> Seq<char>
    decreases s.len(),
{
    if s.len() > 0 && whitespace(s[0]) {
        trimmed_start(s.skip(1))
    } else {
        s
    }
}

/// `s` without its trailing whitespace.
pub open spec fn trimmed_end(s: Seq<char>) -> Seq<char>
    decreases s.len(),
{
    if s.len() > 0 && whitespace(s.last()) {
        trimmed_end(s.drop_last())
    } else {
        s
    }
}

/// `s` without leading and trailing whitespace.
pub open spec fn trimmed(s: Seq<char>) -> Seq<char> {
    trimmed_end(trimmed_start(s))
}

/// What follows `prefix` in `s`, where `s` starts with it.
pub open spec fn without_prefix(s: Seq<char>, prefix: Seq<char>) -> Option<Seq<char>> {
    if prefix.is_prefix_of(s) {
        Some(s.skip(prefix.len() as int))
    } else {
        None
    }
}

/// What precedes `suffix` in `s`, where `s` ends with it.
pub open spec fn without_suffix(s: Seq<char>, suffix: Seq<char>) -> Option<Seq<char>> {
    if suffix.is_suffix_of(s) {
        Some(s.take(s.len() - suffix.len()))
    } else {
        None
    }
}

/// The leading characters that `run` counts satisfy `p`, and the next one, if
/// there is one, does not.
pub proof fn lemma_run(s: Seq<char>, p: spec_fn(char) -> bool)
    ensures
        run(s, p) <= s.len(),
        forall|i: int| 0 <= i < run(s, p) ==> p(#[trigger] s[i]),
        run(s, p) < s.len() ==> !p(s[run(s, p) as int]),
        s.len() > 0 && p(s[0]) ==> run(s, p) >= 1,
    decreases s.len(),
{
    if s.len() > 0 && p(s[0]) {
        let t = s.skip(1);
        lemma_run(t, p);
        assert forall|i: int| 0 <= i < run(s, p) implies p(#[trigger] s[i]) by {
            if i > 0 {
                assert(s[i] == t[i - 1]);
            }
        }
        if run(s, p) < s.len() {
            assert(s[run(s, p) as int] == t[run(t, p) as int]);
        }
    }
}

/// `run` is the only number of which `lemma_run` holds.
pub proof fn lemma_run_is(s: Seq<char>, p: spec_fn(char) -> bool, n: int)
    requires
        0 <= n <= s.len(),
        forall|i: int| 0 <= i < n ==> p(#[trigger] s[i]),
        n < s.len() ==> !p(s[n]),
    ensures
        run(s, p) == n,
{
    lemma_run(s, p);
    let m = run(s, p) as int;
    if m < n {
        assert(p(s[m]));
    } else if n < m {
        assert(p(s[n]));
    }
}

/// Cutting at a character that is absent from `a` leaves `a` whole.
pub proof fn lemma_cut_at(a: Seq<char>, c: char, b: Seq<char>)
    requires
        !a.contains(c),
    ensures
        cut(a + seq![c] + b, c) == Some((a, b)),
{
    let s = a + seq![c] + b;
    assert forall|i: int| 0 <= i < a.len() implies other_than(c)(#[trigger] s[i]) by {
        assert(s[i] == a[i]);
        assert(a.contains(a[i]));
    }
    lemma_run_is(s, other_than(c), a.len() as int);
    assert(s.take(a.len() as int) =~= a);
    assert(s.skip(a.len() as int + 1) =~= b);
}

/// A string without `c` cannot be cut at `c`.
pub proof fn lemma_cut_absent(a: Seq<char>, c: char)
    requires
        !a.contains(c),
    ensures
        cut(a, c) is None,
        pieces(a, c) == seq![a],
{
    assert forall|i: int| 0 <= i < a.len() implies other_than(c)(#[trigger] a[i]) by {
        assert(a.contains(a[i]));
    }
    lemma_run_is(a, other_than(c), a.len() as int);
}

/// Splitting at `c` distributes over concatenation at a `c`.
pub proof fn law_pieces_of_joined(a: Seq<char>, c: char, b: Seq<char>)
    ensures
        pieces(a + seq![c] + b, c) == pieces(a, c) + pieces(b, c),
    decreases a.len(),
{
    let s = a + seq![c] + b;
    let n = run(a, other_than(c)) as int;
    lemma_run(a, other_than(c));
    assert forall|i: int| 0 <= i < n implies other_than(c)(#[trigger] s[i]) by {
        assert(s[i] == a[i]);
        assert(other_than(c)(a[i]));
    }
    if n < a.len() {
        assert(s[n] == a[n]);
        lemma_run_is(s, other_than(c), n);
        let rest = a.skip(n + 1);
        assert(s.take(n) =~= a.take(n));
        assert(s.skip(n + 1) =~= rest + seq![c] + b);
        law_pieces_of_joined(rest, c, b);
        assert(pieces(s, c) =~= seq![a.take(n)] + (pieces(rest, c) + pieces(b, c)));
        assert(pieces(a, c) =~= seq![a.take(n)] + pieces(rest, c));
        assert(pieces(s, c) =~= pieces(a, c) + pieces(b, c));
    } else {
        assert(s[n] == c);
        lemma_run_is(s, other_than(c), n);
        assert(s.take(n) =~= a);
        assert(s.skip(n + 1) =~= b);
        assert(pieces(a, c) =~= seq![a]);
    }
}

/// The words of two texts with whitespace between them are the words of the
/// first, then those of the second.
pub proof fn law_words_of_joined(a: Seq<char>, w: char, b: Seq<char>)
    requires
        whitespace(w),
    ensures
        words(a + seq![w] + b) == words(a) + words(b),
    decreases a.len(),
{
    let s = a + seq![w] + b;
    if a.len() == 0 {
        assert(s[0] == w);
        assert(s.skip(1) =~= b);
        assert(words(a) + words(b) =~= words(b));
    } else if whitespace(a[0]) {
        assert(s[0] == a[0]);
        assert(s.skip(1) =~= a.skip(1) + seq![w] + b);
        law_words_of_joined(a.skip(1), w, b);
    } else {
        assert(s[0] == a[0]);
        let n = run(a, word_char()) as int;
        lemma_run(a, word_char());
        assert forall|i: int| 0 <= i < n implies word_char()(#[trigger] s[i]) by {
            assert(s[i] == a[i]);
            assert(word_char()(a[i]));
        }
        if n < a.len() {
            assert(s[n] == a[n]);
        } else {
            assert(s[n] == w);
        }
        lemma_run_is(s, word_char(), n);
        let rest = a.skip(n);
        assert(s.take(n) =~= a.take(n));
        assert(s.skip(n) =~= rest + seq![w] + b);
        law_words_of_joined(rest, w, b);
        assert(words(s) =~= seq![a.take(n)] + (words(rest) + words(b)));
        assert(words(a) =~= seq![a.take(n)] + words(rest));
        assert(words(s) =~= words(a) + words(b));
    }
}

/// A non-empty text without whitespace is one word.
pub proof fn law_single_word(s: Seq<char>)
    requires
        s.len() > 0,
        forall|i: int| 0 <= i < s.len() ==> !whitespace(#[trigger] s[i]),
    ensures
        words(s) == seq![s],
{
    lemma_run_is(s, word_char(), s.len() as int);
    assert(s.take(s.len() as int) =~= s);
    assert(words(s.skip(s.len() as int)) =~= Seq::empty());
    assert(words(s) =~= seq![s]);
}

/// The characters of `s`.
pub(crate) fn chars_of(s: &str) -> (v: Vec<char>)
    ensures
        v@ == s@,
{
    let mut v: Vec<char> = Vec::new();
    for c in it: s.chars()
        invariant
            v@ == it.seq().take(it.index() as int),
    {
        v.push(c);
    }
    v
}

/// Whether `a` and `b` hold the same characters.
pub fn same(a: &str, b: &str) -> (res: bool)
    ensures
        res == (a@ == b@),
{
    let x: Vec<char> = chars_of(a);
    let y: Vec<char> = chars_of(b);
    if x.len() != y.len() {
        return false;
    }
    let mut i: usize = 0;
    while i < x.len()
        invariant
            i <= x.len(),
            x.len() == y.len(),
            x@ == a@,
            y@ == b@,
            forall|j: int| 0 <= j < i ==> x@[j] == y@[j],
        decreases x.len() - i,
    {
        if x[i] != y[i] {
            return false;
        }
        i = i + 1;
    }
    assert(x@ =~= y@);
    true
}

/// Whether `c` is whitespace.
pub fn is_whitespace(c: char) -> (res: bool)
    ensures
        res == whitespace(c),
{
    ('\u{9}' <= c && c <= '\u{d}') || c == ' ' || c == '\u{85}' || c == '\u{a0}' || c == '\u{1680}'
        || ('\u{2000}' <= c && c <= '\u{200a}') || c == '\u{2028}' || c == '\u{2029}' || c
        == '\u{202f}' || c == '\u{205f}' || c == '\u{3000}'
}

/// What stands before and after the first `c` in `s`.
pub fn split_once<'a>(s: &'a str, c: char) -> (res: Option<(&'a str, &'a str)>)
    ensures
        match res {
            Some(pair) => cut(s@, c) == Some((pair.0@, pair.1@)),
            None => cut(s@, c) is None,
        },
{
    let chars: Vec<char> = chars_of(s);
    let mut i: usize = 0;
    while i < chars.len()
        invariant
            i <= chars.len(),
            chars@ == s@,
            forall|j: int| 0 <= j < i ==> other_than(c)(#[trigger] s@[j]),
        decreases chars.len() - i,
    {
        if chars[i] == c {
            proof {
                lemma_run_is(s@, other_than(c), i as int);
            }
            return Some((s.substring_char(0, i), s.substring_char(i + 1, chars.len())));
        }
        i = i + 1;
    }
    proof {
        lemma_run_is(s@, other_than(c), s@.len() as int);
    }
    None
}

/// The pieces of `s` between the occurrences of `c`.
pub fn split<'a>(s: &'a str, c: char) -> (res: Vec<&'a str>)
    ensures
        res.deep_view() == pieces(s@, c),
{
    let mut res: Vec<&'a str> = Vec::new();
    let mut rest: &'a str = s;
    loop
        invariant
            res.deep_view() + pieces(rest@, c) == pieces(s@, c),
        decreases rest@.len(),
    {
        let ghost done = res.deep_view();
        match split_once(rest, c) {
            Some((head, tail)) => {
                res.push(head);
                proof {
                    lemma_run(rest@, other_than(c));
                    assert(res.deep_view() =~= done.push(head@));
                    assert(done + (seq![head@] + pieces(tail@, c)) =~= done.push(head@) + pieces(
                        tail@,
                        c,
                    ));
                }
                rest = tail;
            },
            None => {
                res.push(rest);
                assert(res.deep_view() =~= done + seq![rest@]);
                return res;
            },
        }
    }
}

/// The words of `s`.
pub fn split_whitespace<'a>(s: &'a str) -> (res: Vec<&'a str>)
    ensures
        res.deep_view() == words(s@),
{
    let chars: Vec<char> = chars_of(s);
    let mut res: Vec<&'a str> = Vec::new();
    let mut i: usize = 0;
    assert(s@.skip(0) =~= s@);
    assert(res.deep_view() + words(s@) =~= words(s@));
    while i < chars.len()
        invariant
            i <= chars.len(),
            chars@ == s@,
            res.deep_view() + words(s@.skip(i as int)) == words(s@),
        decreases chars.len() - i,
    {
        let ghost t = s@.skip(i as int);
        assert(t[0] == s@[i as int]);
        if is_whitespace(chars[i]) {
            assert(t.skip(1) =~= s@.skip(i + 1));
            i = i + 1;
        } else {
            let mut j: usize = i;
            while j < chars.len() && !is_whitespace(chars[j])
                invariant
                    i <= j <= chars.len(),
                    chars@ == s@,
                    forall|k: int| i <= k < j ==> !whitespace(#[trigger] s@[k]),
                decreases chars.len() - j,
            {
                j = j + 1;
            }
            let word: &'a str = s.substring_char(i, j);
            let ghost done = res.deep_view();
            res.push(word);
            proof {
                let n = j - i;
                assert forall|k: int| 0 <= k < n implies word_char()(#[trigger] t[k]) by {
                    assert(t[k] == s@[i + k]);
                }
                if n < t.len() {
                    assert(t[n] == s@[j as int]);
                }
                lemma_run_is(t, word_char(), n);
                assert(n > 0) by {
                    lemma_run(t, word_char());
                }
                assert(t.take(n) =~= word@);
                assert(t.skip(n) =~= s@.skip(j as int));
                assert(res.deep_view() =~= done.push(word@));
                assert(done + (seq![word@] + words(s@.skip(j as int))) =~= done.push(word@) + words(
                    s@.skip(j as int),
                ));
            }
            i = j;
        }
    }
    assert(words(s@.skip(i as int)) =~= Seq::empty());
    assert(res.deep_view() =~= words(s@));
    res
}

/// `s` without leading and trailing whitespace.
pub fn trim<'a>(s: &'a str) -> (res: &'a str)
    ensures
        res@ == trimmed(s@),
{
    let chars: Vec<char> = chars_of(s);
    let mut i: usize = 0;
    assert(s@.skip(0) =~= s@);
    while i < chars.len() && is_whitespace(chars[i])
        invariant
            i <= chars.len(),
            chars@ == s@,
            trimmed_start(s@.skip(i as int)) == trimmed_start(s@),
        decreases chars.len() - i,
    {
        assert(s@.skip(i as int)[0] == s@[i as int]);
        assert(s@.skip(i as int).skip(1) =~= s@.skip(i + 1));
        i = i + 1;
    }
    let mut j: usize = chars.len();
    proof {
        if i < chars.len() {
            assert(s@.skip(i as int)[0] == s@[i as int]);
        }
        assert(s@.subrange(i as int, j as int) =~= s@.skip(i as int));
    }
    while i < j && is_whitespace(chars[j - 1])
        invariant
            i <= j <= chars.len(),
            chars@ == s@,
            trimmed_end(s@.subrange(i as int, j as int)) == trimmed(s@),
        decreases j,
    {
        let ghost t = s@.subrange(i as int, j as int);
        assert(t.last() == s@[j - 1]);
        assert(t.drop_last() =~= s@.subrange(i as int, j - 1));
        j = j - 1;
    }
    proof {
        if i < j {
            assert(s@.subrange(i as int, j as int).last() == s@[j - 1]);
        }
    }
    s.substring_char(i, j)
}

/// Whether `part` stands in `whole` from position `at` on.
fn matches_at(whole: &Vec<char>, part: &Vec<char>, at: usize) -> (res: bool)
    requires
        at + part.len() <= whole.len(),
    ensures
        res == (whole@.subrange(at as int, at + part.len()) == part@),
{
    let mut i: usize = 0;
    while i < part.len()
        invariant
            i <= part.len(),
            at + part.len() <= whole.len(),
            forall|j: int| 0 <= j < i ==> whole@[at + j] == part@[j],
        decreases part.len() - i,
    {
        if whole[at + i] != part[i] {
            assert(whole@.subrange(at as int, at + part.len())[i as int] != part@[i as int]);
            return false;
        }
        i = i + 1;
    }
    assert(whole@.subrange(at as int, at + part.len()) =~= part@);
    true
}

/// What follows `prefix` in `s`, where `s` starts with it.
pub fn strip_prefix<'a>(s: &'a str, prefix: &str) -> (res: Option<&'a str>)
    ensures
        match res {
            Some(rest) => without_prefix(s@, prefix@) == Some(rest@),
            None => without_prefix(s@, prefix@) is None,
        },
{
    let whole: Vec<char> = chars_of(s);
    let part: Vec<char> = chars_of(prefix);
    if part.len() <= whole.len() && matches_at(&whole, &part, 0) {
        Some(s.substring_char(part.len(), whole.len()))
    } else {
        None
    }
}

/// What precedes `suffix` in `s`, where `s` ends with it.
pub fn strip_suffix<'a>(s: &'a str, suffix: &str) -> (res: Option<&'a str>)
    ensures
        match res {
            Some(rest) => without_suffix(s@, suffix@) == Some(rest@),
            None => without_suffix(s@, suffix@) is None,
        },
{
    let whole: Vec<char> = chars_of(s);
    let part: Vec<char> = chars_of(suffix);
    if part.len() <= whole.len() && matches_at(&whole, &part, whole.len() - part.len()) {
        Some(s.substring_char(0, whole.len() - part.len()))
    } else {
        None
    }
}

/// Whether `s` starts with `prefix`.
pub fn starts_with(s: &str, prefix: &str) -> (res: bool)
    ensures
        res == prefix@.is_prefix_of(s@),
{
    strip_prefix(s, prefix).is_some()
}

} // verus!
