//! Laws of the kernel command line.

use vstd::prelude::*;
use crate::cmdline::{
    addon_name, addons, declaration, declarations, read_all, KEY_PREFIX, KEY_SUFFIX,
};
use crate::decimal::{decimal, lemma_decimal};
use crate::error::AddonErrorView;
use crate::laws::text::{
    blank, law_blank_has_no_words, law_cut, law_without_prefix, law_without_suffix,
};
use crate::laws::verity::{known, law_read_back, pair, rendered};
use crate::text::{
    cut, law_single_word, law_words_of_joined, lemma_cut_at, whitespace, without_prefix, words,
};
use crate::verity::{
    verity_params, VerityParamsView, DATA_BLOCKS, DATA_BLOCK_SIZE, HASH_BLOCK_SIZE, ROOT_HASH, SALT,
};

verus! {

/// What a command line denotes.
pub type Addons = Result<Seq<(Seq<char>, VerityParamsView)>, AddonErrorView>;

/// What two command lines in a row denote: the addons of both, unless one is
/// refused; the first refusal counts.
pub open spec fn followed_by(a: Addons, b: Addons) -> Addons {
    match a {
        Err(e) => Err(e),
        Ok(x) => match b {
            Err(e) => Err(e),
            Ok(y) => Ok(x + y),
        },
    }
}

/// The declarations in two lists of words in a row.
pub proof fn lemma_declarations_of_joined(a: Seq<Seq<char>>, b: Seq<Seq<char>>)
    ensures
        declarations(a + b) == declarations(a) + declarations(b),
    decreases b.len(),
{
    if b.len() == 0 {
        assert(a + b =~= a);
        assert(declarations(a) + declarations(b) =~= declarations(a));
    } else {
        assert((a + b).drop_last() =~= a + b.drop_last());
        assert((a + b).last() == b.last());
        lemma_declarations_of_joined(a, b.drop_last());
        assert(declarations(a + b) =~= declarations(a) + declarations(b));
    }
}

/// Two lists of declarations in a row.
pub proof fn lemma_read_all_of_joined(
    a: Seq<(Seq<char>, Seq<char>)>,
    b: Seq<(Seq<char>, Seq<char>)>,
)
    ensures
        read_all(a + b) == followed_by(read_all(a), read_all(b)),
    decreases b.len(),
{
    if b.len() == 0 {
        assert(a + b =~= a);
        if let Ok(x) = read_all(a) {
            assert(x + Seq::empty() =~= x);
        }
    } else {
        assert((a + b).drop_last() =~= a + b.drop_last());
        assert((a + b).last() == b.last());
        lemma_read_all_of_joined(a, b.drop_last());
        if let Ok(x) = read_all(a) {
            if let Ok(y) = read_all(b.drop_last()) {
                let (name, value) = b.last();
                if let Ok(params) = verity_params(name, value) {
                    assert((x + y).push((name, params)) =~= x + y.push((name, params)));
                }
            }
        }
    }
}

/// A command line denotes what its parts denote, one after the other.
pub proof fn law_addons_of_joined(a: Seq<char>, w: char, b: Seq<char>)
    requires
        whitespace(w),
    ensures
        addons(a + seq![w] + b) == followed_by(addons(a), addons(b)),
{
    law_words_of_joined(a, w, b);
    lemma_declarations_of_joined(words(a), words(b));
    lemma_read_all_of_joined(declarations(words(a)), declarations(words(b)));
}

/// Text whose words declare no addon denotes no addons. This is a command line of
/// an image that is not composable.
pub proof fn law_no_declaration_no_addon(cmdline: Seq<char>)
    requires
        forall|i: int|
            0 <= i < words(cmdline).len() ==> declaration(#[trigger] words(cmdline)[i]) is None,
    ensures
        addons(cmdline) == Addons::Ok(Seq::empty()),
{
    lemma_no_declaration(words(cmdline));
}

proof fn lemma_no_declaration(ws: Seq<Seq<char>>)
    requires
        forall|i: int| 0 <= i < ws.len() ==> declaration(#[trigger] ws[i]) is None,
    ensures
        declarations(ws) == Seq::<(Seq<char>, Seq<char>)>::empty(),
    decreases ws.len(),
{
    if ws.len() > 0 {
        assert(declaration(ws[ws.len() - 1]) is None);
        let before = ws.drop_last();
        assert forall|i: int| 0 <= i < before.len() implies declaration(
            #[trigger] before[i],
        ) is None by {
            assert(before[i] == ws[i]);
        }
        lemma_no_declaration(before);
    }
}

/// Other parameters are ignored, wherever they stand.
pub proof fn law_other_parameters_ignored(
    a: Seq<char>,
    v: char,
    other: Seq<char>,
    w: char,
    b: Seq<char>,
)
    requires
        whitespace(v),
        whitespace(w),
        forall|i: int|
            0 <= i < words(other).len() ==> declaration(#[trigger] words(other)[i]) is None,
    ensures
        addons(a + seq![v] + other + seq![w] + b) == addons(a + seq![w] + b),
        addons(a + seq![v] + other) == addons(a),
        addons(other + seq![w] + b) == addons(b),
{
    law_no_declaration_no_addon(other);
    law_addons_of_joined(a + seq![v] + other, w, b);
    law_addons_of_joined(a, v, other);
    law_addons_of_joined(other, w, b);
    law_addons_of_joined(a, w, b);
    if let Ok(x) = addons(a) {
        assert(x + Seq::empty() =~= x);
    }
    if let Ok(y) = addons(b) {
        assert(Seq::<(Seq<char>, VerityParamsView)>::empty() + y =~= y);
    }
}

/// The word that declares the addon `name` with the parameter list `value`.
pub open spec fn declaring(name: Seq<char>, value: Seq<char>) -> Seq<char> {
    "kata.addon."@ + name + ".verity_params"@ + seq!['='] + value
}

/// A declared addon is recognised, with its parameter list as it stands.
pub proof fn law_declaration_recognised(name: Seq<char>, value: Seq<char>)
    requires
        !name.contains('='),
    ensures
        declaration(declaring(name, value)) == Some((name, value)),
{
    reveal_strlit("kata.addon.");
    reveal_strlit(".verity_params");
    let key = KEY_PREFIX@ + name + KEY_SUFFIX@;
    assert(!key.contains('=')) by {
        if key.contains('=') {
            let i = choose|i: int| 0 <= i < key.len() && key[i] == '=';
            if i < KEY_PREFIX@.len() {
                assert(KEY_PREFIX@[i] == '=');
            } else if i < KEY_PREFIX@.len() + name.len() {
                assert(name[i - KEY_PREFIX@.len()] == '=');
            } else {
                assert(KEY_SUFFIX@[i - KEY_PREFIX@.len() - name.len()] == '=');
            }
        }
    }
    lemma_cut_at(key, '=', value);
    let rest = name + KEY_SUFFIX@;
    assert(key.subrange(0, KEY_PREFIX@.len() as int) =~= KEY_PREFIX@);
    assert(key.skip(KEY_PREFIX@.len() as int) =~= rest);
    assert(rest.subrange(rest.len() - KEY_SUFFIX@.len(), rest.len() as int) =~= KEY_SUFFIX@);
    assert(rest.take(rest.len() - KEY_SUFFIX@.len()) =~= name);
    assert(addon_name(key) == Some(name));
}

/// Without whitespace.
pub open spec fn unspaced(s: Seq<char>) -> bool {
    forall|i: int| 0 <= i < s.len() ==> !whitespace(#[trigger] s[i])
}

/// A command line with a single declaration denotes that addon, or is refused as
/// its parameter list is.
pub proof fn law_single_addon(name: Seq<char>, value: Seq<char>)
    requires
        !name.contains('='),
        unspaced(name),
        unspaced(value),
    ensures
        addons(declaring(name, value)) == (match verity_params(name, value) {
            Ok(params) => Addons::Ok(seq![(name, params)]),
            Err(e) => Addons::Err(e),
        }),
{
    reveal_strlit("kata.addon.");
    reveal_strlit(".verity_params");
    law_declaration_recognised(name, value);
    let word = declaring(name, value);
    lemma_unspaced_joined(KEY_PREFIX@, name);
    lemma_unspaced_joined(KEY_PREFIX@ + name, KEY_SUFFIX@);
    lemma_unspaced_joined(KEY_PREFIX@ + name + KEY_SUFFIX@, seq!['=']);
    lemma_unspaced_joined(KEY_PREFIX@ + name + KEY_SUFFIX@ + seq!['='], value);
    assert(KEY_PREFIX@.len() == 11);
    assert(word.len() > 0);
    law_single_word(word);
    let ws = seq![word];
    assert(ws.drop_last() =~= Seq::empty());
    assert(declarations(ws.drop_last()) =~= Seq::empty());
    let ds = seq![(name, value)];
    assert(declarations(ws) =~= ds);
    assert(ds.drop_last() =~= Seq::empty());
    assert(read_all(ds.drop_last()) == Addons::Ok(Seq::empty()));
    if let Ok(params) = verity_params(name, value) {
        assert(Seq::empty().push((name, params)) =~= seq![(name, params)]);
    }
}

proof fn lemma_unspaced_joined(a: Seq<char>, b: Seq<char>)
    requires
        unspaced(a),
        unspaced(b),
    ensures
        unspaced(a + b),
{
    assert forall|i: int| 0 <= i < (a + b).len() implies !whitespace(#[trigger] (a + b)[i]) by {
        if i < a.len() {
            assert((a + b)[i] == a[i]);
        } else {
            assert((a + b)[i] == b[i - a.len()]);
        }
    }
}

proof fn lemma_unspaced_pair(list: Seq<char>, key: Seq<char>, value: Seq<char>)
    requires
        unspaced(list),
        known(key),
        unspaced(value),
    ensures
        unspaced(pair(key, value)),
        unspaced(list + seq![',']),
        unspaced(list + seq![','] + pair(key, value)),
{
    reveal_strlit("root_hash");
    reveal_strlit("salt");
    reveal_strlit("data_blocks");
    reveal_strlit("data_block_size");
    reveal_strlit("hash_block_size");
    assert(unspaced(key));
    lemma_unspaced_joined(key, seq!['=']);
    lemma_unspaced_joined(key + seq!['='], value);
    lemma_unspaced_joined(list, seq![',']);
    lemma_unspaced_joined(list + seq![','], pair(key, value));
}

proof fn lemma_unspaced_decimal(n: u64)
    ensures
        unspaced(decimal(n as nat)),
{
    lemma_decimal(n as nat);
}

/// Declaring an addon on the command line and reading the command line gives the
/// addon back, with its parameters.
pub proof fn law_declared_addon_read_back(name: Seq<char>, p: VerityParamsView)
    requires
        !name.contains('='),
        unspaced(name),
        !p.root_hash.contains(','),
        unspaced(p.root_hash),
        !p.salt.contains(','),
        unspaced(p.salt),
        p.data_blocks > 0,
        p.data_block_size > 0,
        p.hash_block_size > 0,
    ensures
        addons(declaring(name, rendered(p))) == Addons::Ok(seq![(name, p)]),
{
    lemma_unspaced_decimal(p.data_blocks);
    lemma_unspaced_decimal(p.data_block_size);
    lemma_unspaced_decimal(p.hash_block_size);
    let v1 = pair(ROOT_HASH@, p.root_hash);
    let v2 = v1 + seq![','] + pair(SALT@, p.salt);
    let v3 = v2 + seq![','] + pair(DATA_BLOCKS@, decimal(p.data_blocks as nat));
    let v4 = v3 + seq![','] + pair(DATA_BLOCK_SIZE@, decimal(p.data_block_size as nat));
    lemma_unspaced_pair(Seq::empty(), ROOT_HASH@, p.root_hash);
    lemma_unspaced_pair(v1, SALT@, p.salt);
    lemma_unspaced_pair(v2, DATA_BLOCKS@, decimal(p.data_blocks as nat));
    lemma_unspaced_pair(v3, DATA_BLOCK_SIZE@, decimal(p.data_block_size as nat));
    lemma_unspaced_pair(v4, HASH_BLOCK_SIZE@, decimal(p.hash_block_size as nat));
    law_read_back(name, p);
    law_single_addon(name, rendered(p));
}

/// A command line is accepted exactly if every declaration on it is; each addon
/// then has the parameters of its declaration, in the order of the declarations.
pub proof fn law_every_declaration_counts(cmdline: Seq<char>)
    ensures
        addons(cmdline) is Ok <==> (forall|i: int|
            0 <= i < declarations(words(cmdline)).len() ==> {
                let d = #[trigger] declarations(words(cmdline))[i];
                verity_params(d.0, d.1) is Ok
            }),
        addons(cmdline) is Ok ==> {
            let list = addons(cmdline)->Ok_0;
            let declared = declarations(words(cmdline));
            &&& list.len() == declared.len()
            &&& forall|i: int|
                0 <= i < list.len() ==> {
                    &&& (#[trigger] list[i]).0 == declared[i].0
                    &&& verity_params(declared[i].0, declared[i].1) == Ok::<
                        VerityParamsView,
                        AddonErrorView,
                    >(list[i].1)
                }
        },
{
    lemma_read_all(declarations(words(cmdline)));
}

proof fn lemma_read_all(declared: Seq<(Seq<char>, Seq<char>)>)
    ensures
        read_all(declared) is Ok <==> (forall|i: int|
            0 <= i < declared.len() ==> {
                let d = #[trigger] declared[i];
                verity_params(d.0, d.1) is Ok
            }),
        read_all(declared) is Ok ==> {
            let list = read_all(declared)->Ok_0;
            &&& list.len() == declared.len()
            &&& forall|i: int|
                0 <= i < list.len() ==> {
                    &&& (#[trigger] list[i]).0 == declared[i].0
                    &&& verity_params(declared[i].0, declared[i].1) == Ok::<
                        VerityParamsView,
                        AddonErrorView,
                    >(list[i].1)
                }
        },
    decreases declared.len(),
{
    if declared.len() > 0 {
        let before = declared.drop_last();
        lemma_read_all(before);
        let d = declared[declared.len() - 1];
        assert forall|i: int| 0 <= i < before.len() implies #[trigger] before[i]
            == declared[i] by {}
        if read_all(declared) is Ok {
            let list = read_all(declared)->Ok_0;
            assert forall|i: int| 0 <= i < declared.len() implies {
                let d = #[trigger] declared[i];
                verity_params(d.0, d.1) is Ok
            } by {
                if i < before.len() {
                    assert(before[i] == declared[i]);
                }
            }
            let shorter = read_all(before)->Ok_0;
            assert forall|i: int| 0 <= i < list.len() implies {
                &&& (#[trigger] list[i]).0 == declared[i].0
                &&& verity_params(declared[i].0, declared[i].1) == Ok::<
                    VerityParamsView,
                    AddonErrorView,
                >(list[i].1)
            } by {
                if i < shorter.len() {
                    assert(list[i] == shorter[i]);
                    assert(before[i] == declared[i]);
                }
            }
        } else if read_all(before) is Err {
            let i = choose|i: int|
                0 <= i < before.len() && !({
                    let d = #[trigger] before[i];
                    verity_params(d.0, d.1) is Ok
                });
            assert(declared[i] == before[i]);
        } else {
            assert(verity_params(d.0, d.1) is Err);
        }
    }
}

/// A word declares an addon exactly if it is `kata.addon.`, the name of the addon,
/// without an equals sign, `.verity_params`, an equals sign, and the parameter list.
pub proof fn law_declaration_exactly(word: Seq<char>, name: Seq<char>, value: Seq<char>)
    ensures
        declaration(word) == Some((name, value)) <==> {
            &&& word == "kata.addon."@ + name + ".verity_params"@ + seq!['='] + value
            &&& !name.contains('=')
        },
{
    if word == declaring(name, value) && !name.contains('=') {
        law_declaration_recognised(name, value);
    }
    if declaration(word) == Some((name, value)) {
        let (key, v) = cut(word, '=')->0;
        law_cut(word, '=', key, v);
        let rest = without_prefix(key, KEY_PREFIX@)->0;
        law_without_prefix(key, KEY_PREFIX@, rest);
        law_without_suffix(rest, KEY_SUFFIX@, name);
        assert(key =~= KEY_PREFIX@ + name + KEY_SUFFIX@);
        if name.contains('=') {
            let i = choose|i: int| 0 <= i < name.len() && name[i] == '=';
            assert(key[KEY_PREFIX@.len() + i] == '=');
        }
    }
}

/// A word that is not of that form declares nothing.
pub proof fn law_other_words_declare_nothing(word: Seq<char>)
    requires
        forall|name: Seq<char>, value: Seq<char>| #[trigger]
            declaring(name, value) == word ==> name.contains('='),
    ensures
        declaration(word) is None,
{
    if declaration(word) is Some {
        let (name, value) = declaration(word)->0;
        law_declaration_exactly(word, name, value);
        assert(declaring(name, value) == word);
    }
}

/// A command line that is whitespace alone declares nothing, and a single word
/// declares what `law_declaration_exactly` says. With `law_addons_of_joined` this
/// settles every command line.
pub proof fn law_addons_of_word(word: Seq<char>)
    requires
        unspaced(word),
    ensures
        match declaration(word) {
            None => addons(word) == Addons::Ok(Seq::empty()),
            Some((name, value)) => addons(word) == (match verity_params(name, value) {
                Ok(params) => Addons::Ok(seq![(name, params)]),
                Err(e) => Addons::Err(e),
            }),
        },
{
    if word.len() == 0 {
        law_cut(word, '=', word, word);
        assert(!word.contains('='));
        law_blank_has_no_words(word);
        assert(words(word) =~= Seq::empty());
    } else {
        law_single_word(word);
        let ws = seq![word];
        if declaration(word) is Some {
            let (name, value) = declaration(word)->0;
            law_declaration_exactly(word, name, value);
            let p = "kata.addon."@.len() as int;
            let s = ".verity_params"@.len() as int;
            assert forall|i: int| 0 <= i < name.len() implies !whitespace(#[trigger] name[i]) by {
                assert(word[p + i] == name[i]);
            }
            assert forall|i: int| 0 <= i < value.len() implies !whitespace(
                #[trigger] value[i],
            ) by {
                assert(word[p + name.len() + s + 1 + i] == value[i]);
            }
            law_single_addon(name, value);
        } else {
            assert forall|i: int| 0 <= i < ws.len() implies declaration(
                #[trigger] ws[i],
            ) is None by {}
            law_no_declaration_no_addon(word);
        }
    }
}

/// Whitespace alone declares nothing.
pub proof fn law_addons_of_blank(s: Seq<char>)
    requires
        blank(s),
    ensures
        addons(s) == Addons::Ok(Seq::empty()),
{
    law_blank_has_no_words(s);
    law_no_declaration_no_addon(s);
}

} // verus!
