//! Laws of the verity parameter list.

use vstd::prelude::*;
use crate::decimal::{decimal, law_number_of_decimal, lemma_decimal, number};
use crate::error::AddonErrorView;
use crate::laws::decimal::{law_decimal_canonical, numeral};
use crate::text::{cut, law_pieces_of_joined, lemma_cut_absent, lemma_cut_at, pieces};
use crate::verity::{
    assembled, field_list, fields, first_malformed, last_number, last_value, lemma_keys_differ,
    malformed, numeric, open_args, positive, verity_params, Field, VerityParamsView, DATA_BLOCKS,
    DATA_BLOCK_SIZE, HASH_BLOCK_SIZE, ROOT_HASH, SALT,
};

verus! {

/// One of the five keys.
pub open spec fn known(key: Seq<char>) -> bool {
    key == ROOT_HASH@ || key == SALT@ || numeric(key)
}

/// A piece of a list that says nothing: no `key=value`, or an unknown key.
pub open spec fn silent(piece: Seq<char>) -> bool {
    match cut(piece, '=') {
        Some((key, value)) => !known(key),
        None => true,
    }
}

/// The fields of two lists in a row.
pub proof fn lemma_field_list_of_joined(a: Seq<Seq<char>>, b: Seq<Seq<char>>)
    ensures
        field_list(a + b) == field_list(a) + field_list(b),
    decreases b.len(),
{
    if b.len() == 0 {
        assert(a + b =~= a);
        assert(field_list(a) + field_list(b) =~= field_list(a));
    } else {
        assert((a + b).drop_last() =~= a + b.drop_last());
        assert((a + b).last() == b.last());
        lemma_field_list_of_joined(a, b.drop_last());
        assert(field_list(a + b) =~= field_list(a) + field_list(b));
    }
}

/// The fields of a list that continues after a comma are those of the two parts.
pub proof fn law_fields_of_joined(a: Seq<char>, b: Seq<char>)
    ensures
        fields(a + seq![','] + b) == fields(a) + fields(b),
{
    law_pieces_of_joined(a, ',', b);
    lemma_field_list_of_joined(pieces(a, ','), pieces(b, ','));
}

/// The fields of a single piece.
pub proof fn lemma_fields_of_piece(piece: Seq<char>)
    requires
        !piece.contains(','),
    ensures
        fields(piece) == (match cut(piece, '=') {
            Some(field) => seq![field],
            None => Seq::empty(),
        }),
{
    lemma_cut_absent(piece, ',');
    let ps = seq![piece];
    assert(ps.drop_last() =~= Seq::empty());
    assert(field_list(ps.drop_last()) =~= Seq::empty());
    assert(fields(piece) =~= (match cut(piece, '=') {
        Some(field) => seq![field],
        None => Seq::empty(),
    }));
}

/// The last value of a key in two lists in a row.
pub proof fn lemma_last_value_of_joined(a: Seq<Field>, b: Seq<Field>, key: Seq<char>)
    ensures
        last_value(a + b, key) == (match last_value(b, key) {
            Some(value) => Some(value),
            None => last_value(a, key),
        }),
    decreases b.len(),
{
    if b.len() == 0 {
        assert(a + b =~= a);
    } else {
        assert((a + b).drop_last() =~= a + b.drop_last());
        assert((a + b).last() == b.last());
        lemma_last_value_of_joined(a, b.drop_last(), key);
    }
}

/// The first malformed field in two lists in a row.
pub proof fn lemma_first_malformed_of_joined(a: Seq<Field>, b: Seq<Field>)
    ensures
        first_malformed(a + b) == (match first_malformed(a) {
            Some(field) => Some(field),
            None => first_malformed(b),
        }),
    decreases b.len(),
{
    if b.len() == 0 {
        assert(a + b =~= a);
    } else {
        assert((a + b).drop_last() =~= a + b.drop_last());
        assert((a + b).last() == b.last());
        lemma_first_malformed_of_joined(a, b.drop_last());
    }
}

/// A single field.
pub proof fn lemma_single_field(field: Field, key: Seq<char>)
    ensures
        last_value(seq![field], key) == (if field.0 == key {
            Some(field.1)
        } else {
            None
        }),
        first_malformed(seq![field]) == (if malformed(field) {
            Some(field)
        } else {
            None
        }),
{
    assert(seq![field].drop_last() =~= Seq::empty());
    assert(last_value(seq![field].drop_last(), key) is None);
    assert(first_malformed(seq![field].drop_last()) is None);
}

/// There is a first malformed field exactly if there is a malformed one.
pub proof fn lemma_first_malformed(fields: Seq<Field>)
    ensures
        first_malformed(fields) is None <==> (forall|i: int|
            0 <= i < fields.len() ==> !malformed(#[trigger] fields[i])),
    decreases fields.len(),
{
    if fields.len() > 0 {
        let before = fields.drop_last();
        lemma_first_malformed(before);
        assert forall|i: int| 0 <= i < before.len() implies before[i] == #[trigger] fields[i] by {}
        if first_malformed(fields) is None {
            assert forall|i: int| 0 <= i < fields.len() implies !malformed(#[trigger] fields[i]) by {
                if i < before.len() {
                    assert(!malformed(before[i]));
                }
            }
        } else if first_malformed(before) is Some {
            let i = choose|i: int| 0 <= i < before.len() && malformed(#[trigger] before[i]);
            assert(malformed(fields[i]));
        } else {
            assert(malformed(fields[fields.len() - 1]));
        }
    }
}

/// A parameter list is accepted exactly if no numeric field is malformed, all
/// five fields are there, and none of the numbers is zero. Nothing else about it,
/// the name of the addon included, matters.
pub proof fn law_accepted(name: Seq<char>, value: Seq<char>)
    ensures
        verity_params(name, value) is Ok <==> {
            &&& forall|i: int|
                0 <= i < fields(value).len() ==> !malformed(#[trigger] fields(value)[i])
            &&& last_value(fields(value), ROOT_HASH@) is Some
            &&& last_value(fields(value), SALT@) is Some
            &&& positive(last_number(fields(value), DATA_BLOCKS@))
            &&& positive(last_number(fields(value), DATA_BLOCK_SIZE@))
            &&& positive(last_number(fields(value), HASH_BLOCK_SIZE@))
        },
{
    lemma_first_malformed(fields(value));
}

/// No accepted parameter is zero.
pub proof fn law_accepted_numbers_positive(name: Seq<char>, value: Seq<char>)
    requires
        verity_params(name, value) is Ok,
    ensures
        verity_params(name, value)->Ok_0.data_blocks > 0,
        verity_params(name, value)->Ok_0.data_block_size > 0,
        verity_params(name, value)->Ok_0.hash_block_size > 0,
{
}

/// Unknown keys, and pieces that are not of the form `key=value`, are ignored
/// wherever they stand.
pub proof fn law_silent_piece_ignored(
    name: Seq<char>,
    a: Seq<char>,
    piece: Seq<char>,
    b: Seq<char>,
)
    requires
        !piece.contains(','),
        silent(piece),
    ensures
        verity_params(name, a + seq![','] + piece + seq![','] + b) == verity_params(
            name,
            a + seq![','] + b,
        ),
        verity_params(name, a + seq![','] + piece) == verity_params(name, a),
        verity_params(name, piece + seq![','] + b) == verity_params(name, b),
{
    let fa = fields(a);
    let fp = fields(piece);
    let fb = fields(b);
    law_fields_of_joined(a + seq![','] + piece, b);
    law_fields_of_joined(a, piece);
    law_fields_of_joined(piece, b);
    law_fields_of_joined(a, b);
    lemma_fields_of_piece(piece);
    lemma_keys_differ();
    lemma_silent_fields(name, fa, fp, fb);
    lemma_silent_fields(name, fa, fp, Seq::empty());
    lemma_silent_fields(name, Seq::empty(), fp, fb);
    assert(fa + fp + Seq::empty() =~= fa + fp);
    assert(fa + Seq::empty() =~= fa);
    assert(Seq::<Field>::empty() + fp + fb =~= fp + fb);
    assert(Seq::<Field>::empty() + fb =~= fb);
}

proof fn lemma_silent_fields(name: Seq<char>, a: Seq<Field>, p: Seq<Field>, b: Seq<Field>)
    requires
        p.len() <= 1,
        p.len() == 1 ==> !known(p[0].0),
    ensures
        assembled(name, a + p + b) == assembled(name, a + b),
{
    if p.len() == 0 {
        assert(a + p =~= a);
    } else {
        assert(p =~= seq![p[0]]);
        assert forall|key: Seq<char>| known(key) implies last_value(a + p + b, key) == last_value(
            a + b,
            key,
        ) by {
            lemma_last_value_of_joined(a + p, b, key);
            lemma_last_value_of_joined(a, p, key);
            lemma_last_value_of_joined(a, b, key);
            lemma_single_field(p[0], key);
        }
        assert(known(ROOT_HASH@) && known(SALT@) && known(DATA_BLOCKS@) && known(DATA_BLOCK_SIZE@)
            && known(HASH_BLOCK_SIZE@));
        lemma_first_malformed_of_joined(a + p, b);
        lemma_first_malformed_of_joined(a, p);
        lemma_first_malformed_of_joined(a, b);
        lemma_single_field(p[0], p[0].0);
    }
}

/// `key=value`.
pub open spec fn pair(key: Seq<char>, value: Seq<char>) -> Seq<char> {
    key + seq!['='] + value
}

/// A pair contains a comma only where its key or its value does.
proof fn lemma_pair_plain(key: Seq<char>, value: Seq<char>)
    requires
        !key.contains(','),
        !value.contains(','),
    ensures
        !pair(key, value).contains(','),
{
    let p = pair(key, value);
    if p.contains(',') {
        let i = choose|i: int| 0 <= i < p.len() && p[i] == ',';
        if i < key.len() {
            assert(key[i] == ',');
        } else if i > key.len() {
            assert(value[i - key.len() - 1] == ',');
        }
    }
}

/// Of a key that occurs again, the later value counts.
pub proof fn law_later_value_wins(value: Seq<char>, key: Seq<char>, new: Seq<char>)
    requires
        !key.contains(','),
        !key.contains('='),
        !new.contains(','),
    ensures
        fields(value + seq![','] + pair(key, new)) == fields(value).push((key, new)),
        last_value(fields(value + seq![','] + pair(key, new)), key) == Some(new),
        forall|other: Seq<char>|
            other != key ==> #[trigger] last_value(
                fields(value + seq![','] + pair(key, new)),
                other,
            ) == last_value(fields(value), other),
{
    let p = pair(key, new);
    lemma_pair_plain(key, new);
    law_fields_of_joined(value, p);
    lemma_fields_of_piece(p);
    lemma_cut_at(key, '=', new);
    let fs = fields(value).push((key, new));
    assert(fields(value) + seq![(key, new)] =~= fs);
    assert(fs.drop_last() =~= fields(value));
}

/// The parameter list with the five fields in their usual order.
pub open spec fn rendered(p: VerityParamsView) -> Seq<char> {
    pair(ROOT_HASH@, p.root_hash) + seq![','] + pair(SALT@, p.salt) + seq![','] + pair(
        DATA_BLOCKS@,
        decimal(p.data_blocks as nat),
    ) + seq![','] + pair(DATA_BLOCK_SIZE@, decimal(p.data_block_size as nat)) + seq![','] + pair(
        HASH_BLOCK_SIZE@,
        decimal(p.hash_block_size as nat),
    )
}

/// Reading a written parameter list gives the parameters back.
pub proof fn law_read_back(name: Seq<char>, p: VerityParamsView)
    requires
        !p.root_hash.contains(','),
        !p.salt.contains(','),
        p.data_blocks > 0,
        p.data_block_size > 0,
        p.hash_block_size > 0,
    ensures
        verity_params(name, rendered(p)) == Ok::<VerityParamsView, AddonErrorView>(p),
{
    lemma_keys_differ();
    lemma_keys_plain();
    assert(known(ROOT_HASH@) && known(SALT@) && known(DATA_BLOCKS@) && known(DATA_BLOCK_SIZE@)
        && known(HASH_BLOCK_SIZE@));
    let n1 = decimal(p.data_blocks as nat);
    let n2 = decimal(p.data_block_size as nat);
    let n3 = decimal(p.hash_block_size as nat);
    lemma_decimal_plain(p.data_blocks);
    lemma_decimal_plain(p.data_block_size);
    lemma_decimal_plain(p.hash_block_size);
    let v1 = pair(ROOT_HASH@, p.root_hash);
    let v2 = v1 + seq![','] + pair(SALT@, p.salt);
    let v3 = v2 + seq![','] + pair(DATA_BLOCKS@, n1);
    let v4 = v3 + seq![','] + pair(DATA_BLOCK_SIZE@, n2);
    let v5 = v4 + seq![','] + pair(HASH_BLOCK_SIZE@, n3);
    assert(rendered(p) == v5);
    let e = Seq::<Field>::empty();
    let f1 = e.push((ROOT_HASH@, p.root_hash));
    let f2 = f1.push((SALT@, p.salt));
    let f3 = f2.push((DATA_BLOCKS@, n1));
    let f4 = f3.push((DATA_BLOCK_SIZE@, n2));
    let f5 = f4.push((HASH_BLOCK_SIZE@, n3));
    lemma_pair_plain(ROOT_HASH@, p.root_hash);
    lemma_fields_of_piece(v1);
    lemma_cut_at(ROOT_HASH@, '=', p.root_hash);
    assert(fields(v1) =~= f1);
    law_later_value_wins(v1, SALT@, p.salt);
    law_later_value_wins(v2, DATA_BLOCKS@, n1);
    law_later_value_wins(v3, DATA_BLOCK_SIZE@, n2);
    law_later_value_wins(v4, HASH_BLOCK_SIZE@, n3);
    assert(fields(v5) == f5);
    lemma_single_field((ROOT_HASH@, p.root_hash), ROOT_HASH@);
    assert(f1 =~= seq![(ROOT_HASH@, p.root_hash)]);
    law_number_of_decimal(p.data_blocks);
    law_number_of_decimal(p.data_block_size);
    law_number_of_decimal(p.hash_block_size);
    assert forall|i: int| 0 <= i < f5.len() implies !malformed(#[trigger] f5[i]) by {}
    lemma_first_malformed(f5);
}

/// The keys contain neither a comma nor an equals sign.
proof fn lemma_keys_plain()
    ensures
        forall|key: Seq<char>| #[trigger]
            known(key) ==> !key.contains(',') && !key.contains('='),
{
    reveal_strlit("root_hash");
    reveal_strlit("salt");
    reveal_strlit("data_blocks");
    reveal_strlit("data_block_size");
    reveal_strlit("hash_block_size");
}

/// A written number contains no comma.
proof fn lemma_decimal_plain(n: u64)
    ensures
        !decimal(n as nat).contains(','),
{
    lemma_decimal(n as nat);
}

/// A piece `key=value` is the field of that key with that value.
pub proof fn law_field_of_pair(key: Seq<char>, value: Seq<char>)
    requires
        !key.contains(','),
        !key.contains('='),
        !value.contains(','),
    ensures
        fields(key + seq!['='] + value) == seq![(key, value)],
{
    lemma_pair_plain(key, value);
    lemma_fields_of_piece(pair(key, value));
    lemma_cut_at(key, '=', value);
}

/// A piece without an equals sign is no field.
pub proof fn law_no_field_without_equals(piece: Seq<char>)
    requires
        !piece.contains(','),
        !piece.contains('='),
    ensures
        fields(piece).len() == 0,
{
    lemma_fields_of_piece(piece);
    lemma_cut_absent(piece, '=');
}

/// Whether `value` is what `key` has where it occurs for the last time.
pub open spec fn final_value(fs: Seq<Field>, key: Seq<char>, value: Seq<char>) -> bool {
    exists|i: int|
        {
            &&& 0 <= i < fs.len()
            &&& #[trigger] fs[i] == (key, value)
            &&& forall|j: int| i < j < fs.len() ==> (#[trigger] fs[j]).0 != key
        }
}

/// Whether `key` occurs.
pub open spec fn occurs(fs: Seq<Field>, key: Seq<char>) -> bool {
    exists|i: int| 0 <= i < fs.len() && (#[trigger] fs[i]).0 == key
}

/// Whether `key` has `n`, which is not zero, where it occurs for the last time.
pub open spec fn final_count(fs: Seq<Field>, key: Seq<char>, n: u64) -> bool {
    n != 0 && exists|value: Seq<char>| #[trigger]
        final_value(fs, key, value) && number(value) == Some(n)
}

/// Whether a field that has to be a number is none.
pub open spec fn bad_number(field: Field) -> bool {
    &&& field.0 == "data_blocks"@ || field.0 == "data_block_size"@ || field.0
        == "hash_block_size"@
    &&& number(field.1) is None
}

/// Whether some field that has to be a number is none.
pub open spec fn some_bad_number(fs: Seq<Field>) -> bool {
    exists|i: int| 0 <= i < fs.len() && bad_number(#[trigger] fs[i])
}

proof fn lemma_last_value(fs: Seq<Field>, key: Seq<char>)
    ensures
        last_value(fs, key) is Some ==> final_value(fs, key, last_value(fs, key)->0),
        last_value(fs, key) is None <==> !occurs(fs, key),
        forall|value: Seq<char>| #[trigger]
            final_value(fs, key, value) ==> last_value(fs, key) == Some(value),
    decreases fs.len(),
{
    if fs.len() > 0 {
        let before = fs.drop_last();
        let k = fs.len() - 1;
        lemma_last_value(before, key);
        if fs[k].0 == key {
            assert(fs[k] == (key, fs[k].1));
            assert(final_value(fs, key, fs[k].1));
            assert forall|value: Seq<char>| #[trigger] final_value(fs, key, value) implies value
                == fs[k].1 by {
                let i = choose|i: int|
                    {
                        &&& 0 <= i < fs.len()
                        &&& #[trigger] fs[i] == (key, value)
                        &&& forall|j: int| i < j < fs.len() ==> (#[trigger] fs[j]).0 != key
                    };
                assert(fs[k].0 == key);
            }
        } else {
            if last_value(before, key) is Some {
                let value = last_value(before, key)->0;
                let i = choose|i: int|
                    {
                        &&& 0 <= i < before.len()
                        &&& #[trigger] before[i] == (key, value)
                        &&& forall|j: int| i < j < before.len() ==> (#[trigger] before[j]).0 != key
                    };
                assert(fs[i] == (key, value));
                assert forall|j: int| i < j < fs.len() implies (#[trigger] fs[j]).0 != key by {
                    if j < k {
                        assert(before[j] == fs[j]);
                    }
                }
                assert(final_value(fs, key, value));
            } else if occurs(fs, key) {
                let i = choose|i: int| 0 <= i < fs.len() && (#[trigger] fs[i]).0 == key;
                assert(before[i].0 == key);
            }
            assert forall|value: Seq<char>| #[trigger] final_value(
                fs,
                key,
                value,
            ) implies final_value(before, key, value) by {
                let i = choose|i: int|
                    {
                        &&& 0 <= i < fs.len()
                        &&& #[trigger] fs[i] == (key, value)
                        &&& forall|j: int| i < j < fs.len() ==> (#[trigger] fs[j]).0 != key
                    };
                assert(before[i] == (key, value));
                assert forall|j: int| i < j < before.len() implies (#[trigger] before[j]).0
                    != key by {
                    assert(before[j] == fs[j]);
                }
            }
        }
    }
}

proof fn lemma_bad_numbers(fs: Seq<Field>)
    ensures
        first_malformed(fs) is None <==> !some_bad_number(fs),
{
    lemma_first_malformed(fs);
    assert forall|i: int| 0 <= i < fs.len() implies malformed(#[trigger] fs[i]) == bad_number(
        fs[i],
    ) by {}
}

proof fn lemma_last_number(fs: Seq<Field>, key: Seq<char>, n: u64)
    ensures
        final_count(fs, key, n) <==> n != 0 && last_number(fs, key) == Some(n),
{
    lemma_last_value(fs, key);
    if n != 0 && last_number(fs, key) == Some(n) {
        let value = last_value(fs, key)->0;
        assert(final_value(fs, key, value));
    }
}

/// The parameters that a list denotes: each is what its own key has where it
/// occurs for the last time, wherever that is; none of the numbers is zero; and no
/// field that has to be a number, though a later one replaces it, is none.
pub proof fn law_accepted_exactly(name: Seq<char>, value: Seq<char>, p: VerityParamsView)
    ensures
        verity_params(name, value) == Ok::<VerityParamsView, AddonErrorView>(p) <==> {
            &&& !some_bad_number(fields(value))
            &&& final_value(fields(value), "root_hash"@, p.root_hash)
            &&& final_value(fields(value), "salt"@, p.salt)
            &&& final_count(fields(value), "data_blocks"@, p.data_blocks)
            &&& final_count(fields(value), "data_block_size"@, p.data_block_size)
            &&& final_count(fields(value), "hash_block_size"@, p.hash_block_size)
        },
{
    let fs = fields(value);
    lemma_bad_numbers(fs);
    lemma_last_value(fs, "root_hash"@);
    lemma_last_value(fs, "salt"@);
    lemma_last_number(fs, "data_blocks"@, p.data_blocks);
    lemma_last_number(fs, "data_block_size"@, p.data_block_size);
    lemma_last_number(fs, "hash_block_size"@, p.hash_block_size);
}

/// Whether no key occurs twice.
pub open spec fn keys_differ(fs: Seq<Field>) -> bool {
    forall|i: int, j: int|
        0 <= i < fs.len() && 0 <= j < fs.len() && (#[trigger] fs[i]).0 == (#[trigger] fs[j]).0
            ==> i == j
}

proof fn lemma_final_value_contained(fs: Seq<Field>, key: Seq<char>, value: Seq<char>)
    requires
        keys_differ(fs),
    ensures
        final_value(fs, key, value) <==> fs.contains((key, value)),
{
    if fs.contains((key, value)) {
        let i = choose|i: int| 0 <= i < fs.len() && fs[i] == (key, value);
        assert(fs[i] == (key, value));
        assert forall|j: int| i < j < fs.len() implies (#[trigger] fs[j]).0 != key by {}
    }
}

/// The order of fields with different keys does not matter: lists of the same
/// fields, no key twice, denote the same parameters.
pub proof fn law_field_order_irrelevant(name: Seq<char>, a: Seq<char>, b: Seq<char>)
    requires
        keys_differ(fields(a)),
        keys_differ(fields(b)),
        forall|f: Field| #[trigger] fields(a).contains(f) <==> fields(b).contains(f),
        verity_params(name, a) is Ok,
    ensures
        verity_params(name, b) == verity_params(name, a),
{
    let p = verity_params(name, a)->Ok_0;
    let (fa, fb) = (fields(a), fields(b));
    law_accepted_exactly(name, a, p);
    law_accepted_exactly(name, b, p);
    assert forall|key: Seq<char>, value: Seq<char>| #[trigger]
        final_value(fa, key, value) implies final_value(fb, key, value) by {
        lemma_final_value_contained(fa, key, value);
        lemma_final_value_contained(fb, key, value);
    }
    if some_bad_number(fb) {
        let i = choose|i: int| 0 <= i < fb.len() && bad_number(#[trigger] fb[i]);
        assert(fb.contains(fb[i]));
        assert(fa.contains(fb[i]));
        let j = choose|j: int| 0 <= j < fa.len() && fa[j] == fb[i];
        assert(bad_number(fa[j]));
    }
}

/// Two neighbouring fields with different keys can change places.
pub proof fn law_neighbours_swap(
    name: Seq<char>,
    a: Seq<char>,
    x: (Seq<char>, Seq<char>),
    y: (Seq<char>, Seq<char>),
    b: Seq<char>,
)
    requires
        !x.0.contains(','),
        !x.0.contains('='),
        !x.1.contains(','),
        !y.0.contains(','),
        !y.0.contains('='),
        !y.1.contains(','),
        x.0 != y.0,
        verity_params(
            name,
            a + seq![','] + pair(x.0, x.1) + seq![','] + pair(y.0, y.1) + seq![','] + b,
        ) is Ok,
    ensures
        verity_params(
            name,
            a + seq![','] + pair(y.0, y.1) + seq![','] + pair(x.0, x.1) + seq![','] + b,
        ) == verity_params(
            name,
            a + seq![','] + pair(x.0, x.1) + seq![','] + pair(y.0, y.1) + seq![','] + b,
        ),
{
    let (px, py) = (pair(x.0, x.1), pair(y.0, y.1));
    let (fa, fb) = (fields(a), fields(b));
    law_field_of_pair(x.0, x.1);
    law_field_of_pair(y.0, y.1);
    law_fields_of_joined(a, px);
    law_fields_of_joined(a + seq![','] + px, py);
    law_fields_of_joined(a + seq![','] + px + seq![','] + py, b);
    law_fields_of_joined(a, py);
    law_fields_of_joined(a + seq![','] + py, px);
    law_fields_of_joined(a + seq![','] + py + seq![','] + px, b);
    let (sx, sy) = (seq![x], seq![y]);
    assert forall|key: Seq<char>| #[trigger]
        last_value(fa + sy + sx + fb, key) == last_value(fa + sx + sy + fb, key) by {
        lemma_last_value_of_joined(fa, sx, key);
        lemma_last_value_of_joined(fa + sx, sy, key);
        lemma_last_value_of_joined(fa + sx + sy, fb, key);
        lemma_last_value_of_joined(fa, sy, key);
        lemma_last_value_of_joined(fa + sy, sx, key);
        lemma_last_value_of_joined(fa + sy + sx, fb, key);
        lemma_single_field(x, key);
        lemma_single_field(y, key);
    }
    lemma_first_malformed_of_joined(fa, sx);
    lemma_first_malformed_of_joined(fa + sx, sy);
    lemma_first_malformed_of_joined(fa + sx + sy, fb);
    lemma_first_malformed_of_joined(fa, sy);
    lemma_first_malformed_of_joined(fa + sy, sx);
    lemma_first_malformed_of_joined(fa + sy + sx, fb);
}

proof fn lemma_first_bad_number(fs: Seq<Field>, i: int)
    requires
        0 <= i < fs.len(),
        bad_number(fs[i]),
        forall|j: int| 0 <= j < i ==> !bad_number(#[trigger] fs[j]),
    ensures
        first_malformed(fs) == Some(fs[i]),
    decreases fs.len(),
{
    let before = fs.drop_last();
    if i < before.len() {
        assert forall|j: int| 0 <= j < i implies !bad_number(#[trigger] before[j]) by {
            assert(before[j] == fs[j]);
        }
        lemma_first_bad_number(before, i);
    } else {
        lemma_bad_numbers(before);
        if some_bad_number(before) {
            let j = choose|j: int| 0 <= j < before.len() && bad_number(#[trigger] before[j]);
            assert(bad_number(fs[j]));
        }
    }
}

/// The first field that has to be a number and is none is what a list is refused
/// for, whatever else is wrong with it.
pub proof fn law_refused_for_bad_number(name: Seq<char>, value: Seq<char>, i: int)
    requires
        0 <= i < fields(value).len(),
        bad_number(fields(value)[i]),
        forall|j: int| 0 <= j < i ==> !bad_number(#[trigger] fields(value)[j]),
    ensures
        verity_params(name, value) == Err::<VerityParamsView, AddonErrorView>(
            AddonErrorView::InvalidNumber {
                name,
                field: fields(value)[i].0,
                value: fields(value)[i].1,
            },
        ),
{
    lemma_first_bad_number(fields(value), i);
}

/// Whether `key` has a number other than zero where it occurs for the last time.
pub open spec fn counted(fs: Seq<Field>, key: Seq<char>) -> bool {
    exists|n: u64| #[trigger] final_count(fs, key, n)
}

/// Where all numbers are in order, the first thing that is missing is what a list
/// is refused for: the root hash, then the salt, then the numbers, which must not
/// be zero either.
pub proof fn law_refused_for_missing(name: Seq<char>, value: Seq<char>)
    requires
        !some_bad_number(fields(value)),
    ensures
        ({
            let fs = fields(value);
            let res = verity_params(name, value);
            if !occurs(fs, "root_hash"@) {
                res == Err::<VerityParamsView, AddonErrorView>(
                    AddonErrorView::MissingField { name, field: "root_hash"@ },
                )
            } else if !occurs(fs, "salt"@) {
                res == Err::<VerityParamsView, AddonErrorView>(
                    AddonErrorView::MissingField { name, field: "salt"@ },
                )
            } else if !counted(fs, "data_blocks"@) {
                res == Err::<VerityParamsView, AddonErrorView>(
                    AddonErrorView::MissingOrZero { name, field: "data_blocks"@ },
                )
            } else if !counted(fs, "data_block_size"@) {
                res == Err::<VerityParamsView, AddonErrorView>(
                    AddonErrorView::MissingOrZero { name, field: "data_block_size"@ },
                )
            } else if !counted(fs, "hash_block_size"@) {
                res == Err::<VerityParamsView, AddonErrorView>(
                    AddonErrorView::MissingOrZero { name, field: "hash_block_size"@ },
                )
            } else {
                res is Ok
            }
        }),
{
    let fs = fields(value);
    lemma_bad_numbers(fs);
    lemma_last_value(fs, "root_hash"@);
    lemma_last_value(fs, "salt"@);
    lemma_counted(fs, "data_blocks"@);
    lemma_counted(fs, "data_block_size"@);
    lemma_counted(fs, "hash_block_size"@);
}

proof fn lemma_counted(fs: Seq<Field>, key: Seq<char>)
    ensures
        counted(fs, key) <==> positive(last_number(fs, key)),
{
    if positive(last_number(fs, key)) {
        lemma_last_number(fs, key, last_number(fs, key)->0);
        assert(final_count(fs, key, last_number(fs, key)->0));
    }
    if counted(fs, key) {
        let n = choose|n: u64| #[trigger] final_count(fs, key, n);
        lemma_last_number(fs, key, n);
    }
}

/// `veritysetup` is told to open without a superblock, with sha256; each option is
/// followed by the parameter that it is about, in a notation that reads back as
/// that parameter; and the data device, the name of the target, the hash device and
/// the root hash come last, in this order.
pub proof fn law_open_args(
    dm_name: Seq<char>,
    data: Seq<char>,
    hash: Seq<char>,
    p: VerityParamsView,
)
    ensures
        ({
            let args = open_args(dm_name, data, hash, p);
            &&& args.len() == 16
            &&& args[0] == "open"@
            &&& args[1] == "--no-superblock"@
            &&& args[2] == "--hash"@
            &&& args[3] == "sha256"@
            &&& args[4] == "--data-block-size"@
            &&& number(args[5]) == Some(p.data_block_size)
            &&& args[6] == "--hash-block-size"@
            &&& number(args[7]) == Some(p.hash_block_size)
            &&& args[8] == "--data-blocks"@
            &&& number(args[9]) == Some(p.data_blocks)
            &&& args[10] == "--salt"@
            &&& args[11] == p.salt
            &&& args[12] == data
            &&& args[13] == dm_name
            &&& args[14] == hash
            &&& args[15] == p.root_hash
        }),
        forall|i: int|
            i == 5 || i == 7 || i == 9 ==> numeral(#[trigger] open_args(dm_name, data, hash, p)[i])
                && (open_args(dm_name, data, hash, p)[i][0] == '0' ==> open_args(
                dm_name,
                data,
                hash,
                p,
            )[i].len() == 1),
{
    law_number_of_decimal(p.data_block_size);
    law_number_of_decimal(p.hash_block_size);
    law_number_of_decimal(p.data_blocks);
    law_decimal_canonical(p.data_block_size);
    law_decimal_canonical(p.hash_block_size);
    law_decimal_canonical(p.data_blocks);
}

} // verus!
