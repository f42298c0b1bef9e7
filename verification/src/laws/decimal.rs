//! Laws of numbers.

use vstd::prelude::*;
use crate::decimal::{decimal, digit, lemma_decimal, number, unsigned, value_of};

verus! {

/// Digits alone, at least one.
pub open spec fn numeral(s: Seq<char>) -> bool {
    s.len() > 0 && forall|i: int| 0 <= i < s.len() ==> '0' <= #[trigger] s[i] <= '9'
}

/// A digit is read as its value.
pub proof fn law_single_digit(c: char)
    requires
        '0' <= c <= '9',
    ensures
        number(seq![c]) is Some,
        number(seq![c])->0 as int == c as int - '0' as int,
{
    let s = seq![c];
    assert(unsigned(s) == s);
    assert(s.drop_last() =~= Seq::empty());
    assert(value_of(s.drop_last()) == 0);
    assert(forall|i: int| 0 <= i < s.len() ==> digit(#[trigger] s[i]));
}

/// A further digit makes a number ten times as large and adds its own value; a
/// number that is too large stays so.
pub proof fn law_further_digit(s: Seq<char>, c: char)
    requires
        numeral(s),
        '0' <= c <= '9',
    ensures
        match number(s) {
            Some(n) => {
                let m = n * 10 + (c as int - '0' as int);
                if m <= u64::MAX {
                    number(s.push(c)) is Some && number(s.push(c))->0 as int == m
                } else {
                    number(s.push(c)) is None
                }
            },
            None => number(s.push(c)) is None,
        },
{
    let t = s.push(c);
    assert('0' <= s[0] <= '9');
    assert(t[0] == s[0]);
    assert(unsigned(s) == s);
    assert(unsigned(t) == t);
    assert(t.drop_last() =~= s);
    assert forall|i: int| 0 <= i < s.len() implies digit(#[trigger] s[i]) by {}
    assert forall|i: int| 0 <= i < t.len() implies digit(#[trigger] t[i]) by {
        if i < s.len() {
            assert(t[i] == s[i]);
        }
    }
    assert(value_of(t) == value_of(s) * 10 + (c as int - '0' as int));
}

/// One plus sign before digits changes nothing.
pub proof fn law_plus_sign(s: Seq<char>)
    requires
        numeral(s),
    ensures
        number(seq!['+'] + s) == number(s),
{
    let t = seq!['+'] + s;
    assert('0' <= s[0] <= '9');
    assert(t.skip(1) =~= s);
}

/// What is neither digits alone nor digits after one plus sign is no number.
pub proof fn law_anything_else_refused(s: Seq<char>)
    requires
        !numeral(s),
        s.len() > 0 && s[0] == '+' ==> !numeral(s.skip(1)),
    ensures
        number(s) is None,
{
    let d = unsigned(s);
    if number(s) is Some {
        assert forall|i: int| 0 <= i < d.len() implies '0' <= #[trigger] d[i] <= '9' by {
            assert(digit(d[i]));
        }
        assert(numeral(d));
    }
}

/// A number is written with digits alone, without leading zeros.
pub proof fn law_decimal_canonical(n: u64)
    ensures
        numeral(decimal(n as nat)),
        decimal(n as nat)[0] == '0' ==> decimal(n as nat).len() == 1,
{
    lemma_decimal(n as nat);
    lemma_no_leading_zero(n as nat);
    let s = decimal(n as nat);
    assert forall|i: int| 0 <= i < s.len() implies '0' <= #[trigger] s[i] <= '9' by {
        assert(digit(s[i]));
    }
}

proof fn lemma_no_leading_zero(n: nat)
    ensures
        decimal(n).len() > 0,
        n > 0 ==> decimal(n)[0] != '0',
        n == 0 ==> decimal(n).len() == 1,
    decreases n,
{
    if n >= 10 {
        lemma_no_leading_zero(n / 10);
        assert(decimal(n)[0] == decimal(n / 10)[0]);
    }
}

} // verus!
