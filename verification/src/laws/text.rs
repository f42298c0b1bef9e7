//! Laws of strings.

use vstd::prelude::*;
use crate::text::{
    cut, lemma_cut_absent, lemma_cut_at, lemma_run, opt, other_than, pieces, run, trimmed,
    trimmed_end, trimmed_start, whitespace, without_prefix, without_suffix, word_char, words,
};

verus! {

/// Made of whitespace alone.
pub open spec fn blank(s: Seq<char>) -> bool {
    forall|i: int| 0 <= i < s.len() ==> whitespace(#[trigger] s[i])
}

/// With no whitespace at either end.
pub open spec fn tight(s: Seq<char>) -> bool {
    s.len() > 0 ==> !whitespace(s[0]) && !whitespace(s[s.len() - 1])
}

/// Whether `s` is `core` with whitespace around it, or nothing around it.
pub open spec fn padded(s: Seq<char>, core: Seq<char>) -> bool {
    exists|front: Seq<char>, back: Seq<char>| #[trigger]
        blank(front) && #[trigger] blank(back) && s == front + core + back
}

/// `list` with `c` between its members.
pub open spec fn joined(list: Seq<Seq<char>>, c: char) -> Seq<char>
    decreases list.len(),
{
    if list.len() == 0 {
        Seq::empty()
    } else if list.len() == 1 {
        list[0]
    } else {
        list[0] + seq![c] + joined(list.skip(1), c)
    }
}

/// The view of an optional string is there exactly if the string is.
pub proof fn law_opt(s: Option<String>)
    ensures
        opt(s) is Some <==> s is Some,
        s is Some ==> opt(s)->0 == s->0@,
{
}

/// A string is cut at the first occurrence of the character, which is dropped;
/// it cannot be cut exactly if the character does not occur.
pub proof fn law_cut(s: Seq<char>, c: char, a: Seq<char>, b: Seq<char>)
    ensures
        cut(s, c) == Some((a, b)) <==> s == a + seq![c] + b && !a.contains(c),
        cut(s, c) is None <==> !s.contains(c),
{
    let n = run_of(s, c);
    lemma_run(s, other_than(c));
    if s == a + seq![c] + b && !a.contains(c) {
        lemma_cut_at(a, c, b);
    }
    if cut(s, c) is Some {
        assert(s[n] == c) by {
            assert(!other_than(c)(s[n]));
        }
        assert(s.contains(s[n]));
        let head = s.take(n);
        if head.contains(c) {
            let i = choose|i: int| 0 <= i < head.len() && head[i] == c;
            assert(other_than(c)(s[i]));
        }
        assert(s =~= head + seq![c] + s.skip(n + 1));
    } else {
        if s.contains(c) {
            let i = choose|i: int| 0 <= i < s.len() && s[i] == c;
            assert(other_than(c)(s[i]));
        }
    }
}

spec fn run_of(s: Seq<char>, c: char) -> int {
    run(s, other_than(c)) as int
}

/// The pieces of a string are free of the separator, and with the separator
/// between them they make up the string.
pub proof fn law_pieces_make_up(s: Seq<char>, c: char)
    ensures
        pieces(s, c).len() > 0,
        joined(pieces(s, c), c) == s,
        forall|i: int| 0 <= i < pieces(s, c).len() ==> !(#[trigger] pieces(s, c)[i]).contains(c),
    decreases s.len(),
{
    let list = pieces(s, c);
    match cut(s, c) {
        Some((head, tail)) => {
            law_cut(s, c, head, tail);
            law_pieces_make_up(tail, c);
            let rest = pieces(tail, c);
            assert(list.skip(1) =~= rest);
            assert forall|i: int| 0 <= i < list.len() implies !(#[trigger] list[i]).contains(c) by {
                if i > 0 {
                    assert(list[i] == rest[i - 1]);
                }
            }
        },
        None => {
            law_cut(s, c, s, s);
        },
    }
}

/// Whatever is put together with the separator is taken apart again.
pub proof fn law_pieces_of_list(list: Seq<Seq<char>>, c: char)
    requires
        list.len() > 0,
        forall|i: int| 0 <= i < list.len() ==> !(#[trigger] list[i]).contains(c),
    ensures
        pieces(joined(list, c), c) == list,
    decreases list.len(),
{
    if list.len() == 1 {
        lemma_cut_absent(list[0], c);
        assert(list =~= seq![list[0]]);
    } else {
        let rest = list.skip(1);
        assert forall|i: int| 0 <= i < rest.len() implies !(#[trigger] rest[i]).contains(c) by {
            assert(rest[i] == list[i + 1]);
        }
        law_pieces_of_list(rest, c);
        lemma_cut_at(list[0], c, joined(rest, c));
        assert(list =~= seq![list[0]] + rest);
    }
}

/// Whitespace alone holds no word; every other text is made of words and
/// whitespace, as the laws of joined texts and of single words say.
pub proof fn law_blank_has_no_words(s: Seq<char>)
    requires
        blank(s),
    ensures
        words(s).len() == 0,
    decreases s.len(),
{
    if s.len() > 0 {
        let t = s.skip(1);
        assert(whitespace(s[0]));
        assert forall|i: int| 0 <= i < t.len() implies whitespace(#[trigger] t[i]) by {
            assert(t[i] == s[i + 1]);
        }
        law_blank_has_no_words(t);
    }
}

/// No word is empty or holds whitespace.
pub proof fn law_words_are_words(s: Seq<char>, i: int)
    requires
        0 <= i < words(s).len(),
    ensures
        words(s)[i].len() > 0,
        forall|j: int| 0 <= j < words(s)[i].len() ==> !whitespace(#[trigger] words(s)[i][j]),
    decreases s.len(),
{
    if whitespace(s[0]) {
        law_words_are_words(s.skip(1), i);
    } else {
        let p = word_char();
        let n = run(s, p) as int;
        lemma_run(s, p);
        if i == 0 {
            assert forall|j: int| 0 <= j < words(s)[i].len() implies !whitespace(
                #[trigger] words(s)[i][j],
            ) by {
                assert(p(s[j]));
            }
        } else {
            law_words_are_words(s.skip(n), i - 1);
            assert(words(s)[i] == words(s.skip(n))[i - 1]);
        }
    }
}

proof fn lemma_trimmed_start(s: Seq<char>)
    ensures
        trimmed_start(s).len() <= s.len(),
        s == s.take(s.len() - trimmed_start(s).len()) + trimmed_start(s),
        blank(s.take(s.len() - trimmed_start(s).len())),
        trimmed_start(s).len() > 0 ==> !whitespace(trimmed_start(s)[0]),
    decreases s.len(),
{
    if s.len() > 0 && whitespace(s[0]) {
        let t = s.skip(1);
        lemma_trimmed_start(t);
        let n = s.len() - trimmed_start(s).len();
        assert(s =~= s.take(n) + trimmed_start(s)) by {
            assert(s =~= seq![s[0]] + t);
            assert(s.take(n) =~= seq![s[0]] + t.take(n - 1));
        }
        assert forall|i: int| 0 <= i < s.take(n).len() implies whitespace(
            #[trigger] s.take(n)[i],
        ) by {
            if i > 0 {
                assert(s.take(n)[i] == t.take(n - 1)[i - 1]);
            }
        }
    } else {
        assert(s =~= s.take(0) + s);
    }
}

proof fn lemma_trimmed_end(s: Seq<char>)
    ensures
        trimmed_end(s).len() <= s.len(),
        s == trimmed_end(s) + s.skip(trimmed_end(s).len() as int),
        blank(s.skip(trimmed_end(s).len() as int)),
        trimmed_end(s).len() > 0 ==> !whitespace(trimmed_end(s)[trimmed_end(s).len() - 1]),
        trimmed_end(s).len() > 0 ==> trimmed_end(s)[0] == s[0],
    decreases s.len(),
{
    let n = trimmed_end(s).len() as int;
    if s.len() > 0 && whitespace(s.last()) {
        let t = s.drop_last();
        lemma_trimmed_end(t);
        assert(s =~= trimmed_end(s) + s.skip(n)) by {
            assert(s =~= t.push(s.last()));
            assert(s.skip(n) =~= t.skip(n).push(s.last()));
        }
        assert forall|i: int| 0 <= i < s.skip(n).len() implies whitespace(
            #[trigger] s.skip(n)[i],
        ) by {
            if i < t.skip(n).len() {
                assert(s.skip(n)[i] == t.skip(n)[i]);
            }
        }
    } else {
        assert(s =~= s + s.skip(n));
    }
}

/// Trimming takes whitespace off both ends and leaves none there.
pub proof fn law_trimmed(s: Seq<char>)
    ensures
        padded(s, trimmed(s)),
        tight(trimmed(s)),
{
    lemma_trimmed_start(s);
    let t = trimmed_start(s);
    lemma_trimmed_end(t);
    let front = s.take(s.len() - t.len());
    let back = t.skip(trimmed(s).len() as int);
    assert(blank(front) && blank(back));
    assert(s =~= front + trimmed(s) + back);
}

/// Text with no whitespace at its ends is what is left of it when whitespace
/// around it is trimmed off.
pub proof fn law_trimmed_of_padded(s: Seq<char>, core: Seq<char>)
    requires
        tight(core),
        padded(s, core),
    ensures
        trimmed(s) == core,
{
    let (front, back) = choose|front: Seq<char>, back: Seq<char>| #[trigger]
        blank(front) && #[trigger] blank(back) && s == front + core + back;
    law_trimmed(s);
    let mid = trimmed(s);
    let (f, b) = choose|f: Seq<char>, b: Seq<char>| #[trigger]
        blank(f) && #[trigger] blank(b) && s == f + mid + b;
    if core.len() == 0 {
        if mid.len() > 0 {
            let i = f.len() as int;
            assert(s[i] == mid[0]);
            if i < front.len() {
                assert(whitespace(front[i]));
            } else {
                assert(whitespace(back[i - front.len()]));
            }
        }
        assert(mid =~= core);
    } else {
        let i = front.len() as int;
        let k = i + core.len() - 1;
        assert(s[i] == core[0]);
        assert(s[k] == core[core.len() - 1]);
        if mid.len() == 0 {
            if i < f.len() {
                assert(whitespace(f[i]));
            } else {
                assert(whitespace(b[i - f.len()]));
            }
        } else {
            let x = f.len() as int;
            let y = x + mid.len() - 1;
            assert(s[x] == mid[0]);
            assert(s[y] == mid[mid.len() - 1]);
            if x < i {
                assert(whitespace(front[x]));
            }
            if i < x {
                assert(whitespace(f[i]));
            }
            if y < k {
                assert(whitespace(b[k - x - mid.len()]));
            }
            if k < y {
                assert(whitespace(back[y - i - core.len()]));
            }
            assert(mid =~= core) by {
                assert forall|j: int| 0 <= j < mid.len() implies mid[j] == core[j] by {
                    assert(s[x + j] == mid[j]);
                    assert(s[i + j] == core[j]);
                }
            }
        }
    }
}

/// What is left without a prefix is what makes up the string with it.
pub proof fn law_without_prefix(s: Seq<char>, prefix: Seq<char>, rest: Seq<char>)
    ensures
        without_prefix(s, prefix) == Some(rest) <==> s == prefix + rest,
        without_prefix(s, prefix) is None <==> !prefix.is_prefix_of(s),
{
    let n = prefix.len() as int;
    if s == prefix + rest {
        assert(s.subrange(0, n) =~= prefix);
        assert(s.skip(n) =~= rest);
    }
    if prefix.is_prefix_of(s) {
        assert(s =~= prefix + s.skip(n));
    }
}

/// What is left without a suffix is what makes up the string with it.
pub proof fn law_without_suffix(s: Seq<char>, suffix: Seq<char>, rest: Seq<char>)
    ensures
        without_suffix(s, suffix) == Some(rest) <==> s == rest + suffix,
        without_suffix(s, suffix) is None <==> !suffix.is_suffix_of(s),
{
    let n = s.len() - suffix.len();
    if s == rest + suffix {
        assert(s.subrange(n, s.len() as int) =~= suffix);
        assert(s.take(n) =~= rest);
    }
    if suffix.is_suffix_of(s) {
        assert(s =~= s.take(n) + suffix);
    }
}

} // verus!
