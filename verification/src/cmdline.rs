//! Addons declared on the kernel command line.

use vstd::prelude::*;
use crate::error::{AddonError, AddonErrorView};
use crate::text::{
    cut, split_once, split_whitespace, strip_prefix, strip_suffix, without_prefix, without_suffix,
    words,
};
use crate::verity::{try_parse_verity_params, verity_params, VerityParams, VerityParamsView};

verus! {

/// What a parameter name starts with if it declares an addon.
pub const KEY_PREFIX: &'static str = "kata.addon.";

/// What a parameter name ends with if it declares an addon.
pub const KEY_SUFFIX: &'static str = ".verity_params";

/// The addon that a parameter name is about.
pub open spec fn addon_name(key: Seq<char>) -> Option<Seq<char>> {
    match without_prefix(key, KEY_PREFIX@) {
        Some(rest) => without_suffix(rest, KEY_SUFFIX@),
        None => None,
    }
}

/// The addon that a word of the command line declares, with its parameter list.
pub open spec fn declaration(word: Seq<char>) -> Option<(Seq<char>, Seq<char>)> {
    match cut(word, '=') {
        Some((key, value)) => match addon_name(key) {
            Some(name) => Some((name, value)),
            None => None,
        },
        None => None,
    }
}

/// The addons that words declare, in order.
pub open spec fn declarations(words: Seq<Seq<char>>) -> Seq<(Seq<char>, Seq<char>)>
    decreases words.len(),
{
    if words.len() == 0 {
        Seq::empty()
    } else {
        let before = declarations(words.drop_last());
        match declaration(words.last()) {
            Some(d) => before.push(d),
            None => before,
        }
    }
}

/// The addons of declarations with their parameters; the first declaration that
/// is refused, if one is, decides the error.
pub open spec fn read_all(declared: Seq<(Seq<char>, Seq<char>)>) -> Result<
    Seq<(Seq<char>, VerityParamsView)>,
    AddonErrorView,
>
    decreases declared.len(),
{
    if declared.len() == 0 {
        Ok(Seq::empty())
    } else {
        match read_all(declared.drop_last()) {
            Err(e) => Err(e),
            Ok(before) => {
                let (name, value) = declared.last();
                match verity_params(name, value) {
                    Ok(params) => Ok(before.push((name, params))),
                    Err(e) => Err(e),
                }
            },
        }
    }
}

/// The addons that the command line declares, each with its parameters.
pub open spec fn addons(cmdline: Seq<char>) -> Result<
    Seq<(Seq<char>, VerityParamsView)>,
    AddonErrorView,
> {
    read_all(declarations(words(cmdline)))
}

/// Declarations after a refused one change nothing.
proof fn lemma_error_stays(words: Seq<Seq<char>>, n: int)
    requires
        0 <= n <= words.len(),
        read_all(declarations(words.take(n))) is Err,
    ensures
        read_all(declarations(words)) == read_all(declarations(words.take(n))),
    decreases words.len(),
{
    if n == words.len() {
        assert(words.take(n) =~= words);
    } else {
        let before = words.drop_last();
        assert(before.take(n) =~= words.take(n));
        lemma_error_stays(before, n);
        match declaration(words.last()) {
            Some(d) => {
                assert(declarations(before).push(d).drop_last() =~= declarations(before));
            },
            None => {},
        }
    }
}

/// The addon that a word of the command line declares, with its parameter list.
fn declared<'a>(word: &'a str) -> (res: Option<(&'a str, &'a str)>)
    ensures
        match res {
            Some(pair) => declaration(word@) == Some((pair.0@, pair.1@)),
            None => declaration(word@) is None,
        },
{
    match split_once(word, '=') {
        Some((key, value)) => match strip_prefix(key, KEY_PREFIX) {
            Some(rest) => match strip_suffix(rest, KEY_SUFFIX) {
                Some(name) => Some((name, value)),
                None => None,
            },
            None => None,
        },
        None => None,
    }
}

/// Parse every `kata.addon.<name>.verity_params=...` entry from the kernel
/// command line into `(name, params)` pairs. Other parameters are ignored.
pub fn try_parse_addons(cmdline: &str) -> (res: Result<Vec<(String, VerityParams)>, AddonError>)
    ensures
        match res {
            Ok(list) => addons(cmdline@) == Ok::<
                Seq<(Seq<char>, VerityParamsView)>,
                AddonErrorView,
            >(list.deep_view()),
            Err(e) => addons(cmdline@) == Err::<
                Seq<(Seq<char>, VerityParamsView)>,
                AddonErrorView,
            >(e@),
        },
{
    let list: Vec<&str> = split_whitespace(cmdline);
    let ghost ws = words(cmdline@);
    let mut res: Vec<(String, VerityParams)> = Vec::new();
    let mut i: usize = 0;
    assert(ws.take(0) =~= Seq::empty());
    assert(res.deep_view() =~= Seq::empty());
    while i < list.len()
        invariant
            i <= list.len(),
            list.deep_view() == ws,
            ws == words(cmdline@),
            read_all(declarations(ws.take(i as int))) == Ok::<
                Seq<(Seq<char>, VerityParamsView)>,
                AddonErrorView,
            >(res.deep_view()),
        decreases list.len() - i,
    {
        let ghost before = declarations(ws.take(i as int));
        let ghost done = res.deep_view();
        proof {
            assert(ws.take(i + 1).drop_last() =~= ws.take(i as int));
            assert(ws.take(i + 1).last() == list.deep_view()[i as int]);
        }
        if let Some((name, value)) = declared(list[i]) {
            assert(before.push((name@, value@)).drop_last() =~= before);
            match try_parse_verity_params(name, value) {
                Ok(params) => {
                    res.push((name.to_owned(), params));
                    assert(res.deep_view() =~= done.push((name@, params@)));
                },
                Err(e) => {
                    proof {
                        lemma_error_stays(ws, i + 1);
                    }
                    return Err(e);
                },
            }
        }
        i = i + 1;
    }
    assert(ws.take(i as int) =~= ws);
    Ok(res)
}

/// Parse every `kata.addon.<name>.verity_params=...` entry from the kernel
/// command line, where each is complete and well-formed.
pub fn parse_addons(cmdline: &str) -> (res: Vec<(String, VerityParams)>)
    requires
        addons(cmdline@) is Ok,
    ensures
        addons(cmdline@) == Ok::<Seq<(Seq<char>, VerityParamsView)>, AddonErrorView>(
            res.deep_view(),
        ),
{
    try_parse_addons(cmdline).unwrap()
}

} // verus!
