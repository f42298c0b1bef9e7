//! dm-verity parameters of an addon.
//!
//! They stand on the kernel command line as
//! `kata.addon.<name>.verity_params=<key>=<value>,<key>=<value>,...`.

use vstd::prelude::*;
use crate::decimal::{decimal, number, read_u64, to_decimal};
use crate::error::{AddonError, AddonErrorView};
use crate::text::{cut, opt, pieces, same, split, split_once};

verus! {

pub const ROOT_HASH: &'static str = "root_hash";

pub const SALT: &'static str = "salt";

pub const DATA_BLOCKS: &'static str = "data_blocks";

pub const DATA_BLOCK_SIZE: &'static str = "data_block_size";

pub const HASH_BLOCK_SIZE: &'static str = "hash_block_size";

/// dm-verity parameters from `kata.addon.<name>.verity_params`, matching the
/// comma-separated list emitted by the Kata image builder. Hash is sha256.
#[derive(Debug)]
pub struct VerityParams {
    pub root_hash: String,
    pub salt: String,
    pub data_blocks: u64,
    pub data_block_size: u64,
    pub hash_block_size: u64,
}

/// The mathematical counterpart of [`VerityParams`].
#[verifier::ext_equal]
pub struct VerityParamsView {
    pub root_hash: Seq<char>,
    pub salt: Seq<char>,
    pub data_blocks: u64,
    pub data_block_size: u64,
    pub hash_block_size: u64,
}

impl View for VerityParams {
    type V = VerityParamsView;

    open spec fn view(&self) -> VerityParamsView {
        VerityParamsView {
            root_hash: self.root_hash@,
            salt: self.salt@,
            data_blocks: self.data_blocks,
            data_block_size: self.data_block_size,
            hash_block_size: self.hash_block_size,
        }
    }
}

impl DeepView for VerityParams {
    type V = VerityParamsView;

    open spec fn deep_view(&self) -> VerityParamsView {
        self@
    }
}

impl Clone for VerityParams {
    fn clone(&self) -> (res: Self)
        ensures
            res@ == self@,
    {
        VerityParams {
            root_hash: self.root_hash.clone(),
            salt: self.salt.clone(),
            data_blocks: self.data_blocks,
            data_block_size: self.data_block_size,
            hash_block_size: self.hash_block_size,
        }
    }
}

/// A key with its value.
pub type Field = (Seq<char>, Seq<char>);

/// The pieces that are of the form `key=value`, in order. The others are dropped.
pub open spec fn field_list(pieces: Seq<Seq<char>>) -> Seq<Field>
    decreases pieces.len(),
{
    if pieces.len() == 0 {
        Seq::empty()
    } else {
        let before = field_list(pieces.drop_last());
        match cut(pieces.last(), '=') {
            Some(field) => before.push(field),
            None => before,
        }
    }
}

/// The fields of a comma-separated list.
pub open spec fn fields(value: Seq<char>) -> Seq<Field> {
    field_list(pieces(value, ','))
}

/// The value that a key has at its last occurrence.
pub open spec fn last_value(fields: Seq<Field>, key: Seq<char>) -> Option<Seq<char>>
    decreases fields.len(),
{
    if fields.len() == 0 {
        None
    } else if fields.last().0 == key {
        Some(fields.last().1)
    } else {
        last_value(fields.drop_last(), key)
    }
}

/// The number that a key has at its last occurrence.
pub open spec fn last_number(fields: Seq<Field>, key: Seq<char>) -> Option<u64> {
    match last_value(fields, key) {
        Some(value) => number(value),
        None => None,
    }
}

/// The keys whose values are numbers.
pub open spec fn numeric(key: Seq<char>) -> bool {
    key == DATA_BLOCKS@ || key == DATA_BLOCK_SIZE@ || key == HASH_BLOCK_SIZE@
}

/// A numeric key with a value that is no number.
pub open spec fn malformed(field: Field) -> bool {
    numeric(field.0) && number(field.1) is None
}

/// The first malformed field.
pub open spec fn first_malformed(fields: Seq<Field>) -> Option<Field>
    decreases fields.len(),
{
    if fields.len() == 0 {
        None
    } else {
        match first_malformed(fields.drop_last()) {
            Some(field) => Some(field),
            None => if malformed(fields.last()) {
                Some(fields.last())
            } else {
                None
            },
        }
    }
}

/// Whether a number is there and is not zero.
pub open spec fn positive(n: Option<u64>) -> bool {
    n is Some && n->0 != 0
}

/// What the fields of the addon `name` amount to. A malformed number is found
/// first, then what is missing, in the order of the fields of [`VerityParams`].
pub open spec fn assembled(name: Seq<char>, fields: Seq<Field>) -> Result<
    VerityParamsView,
    AddonErrorView,
> {
    let root_hash = last_value(fields, ROOT_HASH@);
    let salt = last_value(fields, SALT@);
    let data_blocks = last_number(fields, DATA_BLOCKS@);
    let data_block_size = last_number(fields, DATA_BLOCK_SIZE@);
    let hash_block_size = last_number(fields, HASH_BLOCK_SIZE@);
    match first_malformed(fields) {
        Some((field, value)) => Err(AddonErrorView::InvalidNumber { name, field, value }),
        None => if root_hash is None {
            Err(AddonErrorView::MissingField { name, field: ROOT_HASH@ })
        } else if salt is None {
            Err(AddonErrorView::MissingField { name, field: SALT@ })
        } else if !positive(data_blocks) {
            Err(AddonErrorView::MissingOrZero { name, field: DATA_BLOCKS@ })
        } else if !positive(data_block_size) {
            Err(AddonErrorView::MissingOrZero { name, field: DATA_BLOCK_SIZE@ })
        } else if !positive(hash_block_size) {
            Err(AddonErrorView::MissingOrZero { name, field: HASH_BLOCK_SIZE@ })
        } else {
            Ok(
                VerityParamsView {
                    root_hash: root_hash->0,
                    salt: salt->0,
                    data_blocks: data_blocks->0,
                    data_block_size: data_block_size->0,
                    hash_block_size: hash_block_size->0,
                },
            )
        },
    }
}

/// What the verity parameter list `value` of the addon `name` denotes.
pub open spec fn verity_params(name: Seq<char>, value: Seq<char>) -> Result<
    VerityParamsView,
    AddonErrorView,
> {
    assembled(name, fields(value))
}

/// The five keys differ.
pub proof fn lemma_keys_differ()
    ensures
        ROOT_HASH@ != SALT@,
        ROOT_HASH@ != DATA_BLOCKS@,
        ROOT_HASH@ != DATA_BLOCK_SIZE@,
        ROOT_HASH@ != HASH_BLOCK_SIZE@,
        SALT@ != DATA_BLOCKS@,
        SALT@ != DATA_BLOCK_SIZE@,
        SALT@ != HASH_BLOCK_SIZE@,
        DATA_BLOCKS@ != DATA_BLOCK_SIZE@,
        DATA_BLOCKS@ != HASH_BLOCK_SIZE@,
        DATA_BLOCK_SIZE@ != HASH_BLOCK_SIZE@,
{
    reveal_strlit("root_hash");
    reveal_strlit("salt");
    reveal_strlit("data_blocks");
    reveal_strlit("data_block_size");
    reveal_strlit("hash_block_size");
    assert(ROOT_HASH@.len() == 9);
    assert(SALT@.len() == 4);
    assert(DATA_BLOCKS@.len() == 11);
    assert(DATA_BLOCK_SIZE@.len() == 15);
    assert(HASH_BLOCK_SIZE@.len() == 15);
    assert(DATA_BLOCK_SIZE@[0] == 'd');
    assert(HASH_BLOCK_SIZE@[0] == 'h');
}

/// A malformed field among the first pieces is the first malformed one of all.
proof fn lemma_malformed_stays(pieces: Seq<Seq<char>>, n: int)
    requires
        0 <= n <= pieces.len(),
        first_malformed(field_list(pieces.take(n))) is Some,
    ensures
        first_malformed(field_list(pieces)) == first_malformed(field_list(pieces.take(n))),
    decreases pieces.len(),
{
    if n == pieces.len() {
        assert(pieces.take(n) =~= pieces);
    } else {
        let before = pieces.drop_last();
        assert(before.take(n) =~= pieces.take(n));
        lemma_malformed_stays(before, n);
        match cut(pieces.last(), '=') {
            Some(field) => {
                assert(field_list(before).push(field).drop_last() =~= field_list(before));
            },
            None => {},
        }
    }
}

/// The number that the field `field` of the addon `name` holds.
pub fn try_parse_u64(name: &str, field: &str, value: &str) -> (res: Result<u64, AddonError>)
    ensures
        match res {
            Ok(n) => number(value@) == Some(n),
            Err(e) => {
                &&& number(value@) is None
                &&& e@ == (AddonErrorView::InvalidNumber {
                    name: name@,
                    field: field@,
                    value: value@,
                })
            },
        },
{
    match read_u64(value) {
        Some(n) => Ok(n),
        None => Err(
            AddonError::InvalidNumber {
                name: name.to_owned(),
                field: field.to_owned(),
                value: value.to_owned(),
            },
        ),
    }
}

/// The number that the field `field` of the addon `name` holds, where it holds
/// one.
pub fn parse_u64(name: &str, field: &str, value: &str) -> (res: u64)
    requires
        number(value@) is Some,
    ensures
        number(value@) == Some(res),
{
    try_parse_u64(name, field, value).unwrap()
}

/// The text of a field that has to be there.
fn require(name: &str, field: &str, v: Option<String>) -> (res: Result<String, AddonError>)
    ensures
        match res {
            Ok(s) => v == Some(s),
            Err(e) => v is None && e@ == (AddonErrorView::MissingField {
                name: name@,
                field: field@,
            }),
        },
{
    match v {
        Some(s) => Ok(s),
        None => Err(
            AddonError::MissingField { name: name.to_owned(), field: field.to_owned() },
        ),
    }
}

/// The number of a field that has to be there and must not be zero.
fn require_num(name: &str, field: &str, v: Option<u64>) -> (res: Result<u64, AddonError>)
    ensures
        match res {
            Ok(n) => v == Some(n) && positive(v),
            Err(e) => !positive(v) && e@ == (AddonErrorView::MissingOrZero {
                name: name@,
                field: field@,
            }),
        },
{
    match v {
        Some(n) => if n != 0 {
            Ok(n)
        } else {
            Err(AddonError::MissingOrZero { name: name.to_owned(), field: field.to_owned() })
        },
        None => Err(
            AddonError::MissingOrZero { name: name.to_owned(), field: field.to_owned() },
        ),
    }
}

/// Parse the comma-separated verity parameter list. All five fields are
/// required; anything missing or malformed is an error.
pub fn try_parse_verity_params(name: &str, value: &str) -> (res: Result<VerityParams, AddonError>)
    ensures
        match res {
            Ok(p) => verity_params(name@, value@) == Ok::<VerityParamsView, AddonErrorView>(p@),
            Err(e) => verity_params(name@, value@) == Err::<VerityParamsView, AddonErrorView>(e@),
        },
{
    let mut root_hash: Option<String> = None;
    let mut salt: Option<String> = None;
    let mut data_blocks: Option<u64> = None;
    let mut data_block_size: Option<u64> = None;
    let mut hash_block_size: Option<u64> = None;
    let list: Vec<&str> = split(value, ',');
    let ghost ps = pieces(value@, ',');
    let mut i: usize = 0;
    assert(ps.take(0) =~= Seq::empty());
    while i < list.len()
        invariant
            i <= list.len(),
            list.deep_view() == ps,
            ps == pieces(value@, ','),
            first_malformed(field_list(ps.take(i as int))) is None,
            opt(root_hash) == last_value(field_list(ps.take(i as int)), ROOT_HASH@),
            opt(salt) == last_value(field_list(ps.take(i as int)), SALT@),
            data_blocks == last_number(field_list(ps.take(i as int)), DATA_BLOCKS@),
            data_block_size == last_number(field_list(ps.take(i as int)), DATA_BLOCK_SIZE@),
            hash_block_size == last_number(field_list(ps.take(i as int)), HASH_BLOCK_SIZE@),
        decreases list.len() - i,
    {
        let ghost before = field_list(ps.take(i as int));
        proof {
            lemma_keys_differ();
            assert(ps.take(i + 1).drop_last() =~= ps.take(i as int));
            assert(ps.take(i + 1).last() == list.deep_view()[i as int]);
        }
        if let Some((key, val)) = split_once(list[i], '=') {
            assert(before.push((key@, val@)).drop_last() =~= before);
            assert(field_list(ps.take(i + 1)) == before.push((key@, val@)));
            if same(key, ROOT_HASH) {
                root_hash = Some(val.to_owned());
            } else if same(key, SALT) {
                salt = Some(val.to_owned());
            } else if same(key, DATA_BLOCKS) {
                match try_parse_u64(name, DATA_BLOCKS, val) {
                    Ok(n) => {
                        data_blocks = Some(n);
                    },
                    Err(e) => {
                        proof {
                            lemma_malformed_stays(ps, i + 1);
                        }
                        return Err(e);
                    },
                }
            } else if same(key, DATA_BLOCK_SIZE) {
                match try_parse_u64(name, DATA_BLOCK_SIZE, val) {
                    Ok(n) => {
                        data_block_size = Some(n);
                    },
                    Err(e) => {
                        proof {
                            lemma_malformed_stays(ps, i + 1);
                        }
                        return Err(e);
                    },
                }
            } else if same(key, HASH_BLOCK_SIZE) {
                match try_parse_u64(name, HASH_BLOCK_SIZE, val) {
                    Ok(n) => {
                        hash_block_size = Some(n);
                    },
                    Err(e) => {
                        proof {
                            lemma_malformed_stays(ps, i + 1);
                        }
                        return Err(e);
                    },
                }
            }
        }
        i = i + 1;
    }
    assert(ps.take(i as int) =~= ps);
    let root_hash = match require(name, ROOT_HASH, root_hash) {
        Ok(s) => s,
        Err(e) => {
            return Err(e);
        },
    };
    let salt = match require(name, SALT, salt) {
        Ok(s) => s,
        Err(e) => {
            return Err(e);
        },
    };
    let data_blocks: u64 = match require_num(name, DATA_BLOCKS, data_blocks) {
        Ok(n) => n,
        Err(e) => {
            return Err(e);
        },
    };
    let data_block_size: u64 = match require_num(name, DATA_BLOCK_SIZE, data_block_size) {
        Ok(n) => n,
        Err(e) => {
            return Err(e);
        },
    };
    let hash_block_size: u64 = match require_num(name, HASH_BLOCK_SIZE, hash_block_size) {
        Ok(n) => n,
        Err(e) => {
            return Err(e);
        },
    };
    Ok(VerityParams { root_hash, salt, data_blocks, data_block_size, hash_block_size })
}

/// Parse the comma-separated verity parameter list of an addon, where it is
/// complete and well-formed.
pub fn parse_verity_params(name: &str, value: &str) -> (res: VerityParams)
    requires
        verity_params(name@, value@) is Ok,
    ensures
        verity_params(name@, value@) == Ok::<VerityParamsView, AddonErrorView>(res@),
{
    try_parse_verity_params(name, value).unwrap()
}

/// The arguments of `veritysetup` that open a verity device.
pub open spec fn open_args(
    dm_name: Seq<char>,
    data: Seq<char>,
    hash: Seq<char>,
    p: VerityParamsView,
) -> Seq<Seq<char>> {
    seq![
        "open"@,
        "--no-superblock"@,
        "--hash"@,
        "sha256"@,
        "--data-block-size"@,
        decimal(p.data_block_size as nat),
        "--hash-block-size"@,
        decimal(p.hash_block_size as nat),
        "--data-blocks"@,
        decimal(p.data_blocks as nat),
        "--salt"@,
        p.salt,
        data,
        dm_name,
        hash,
        p.root_hash,
    ]
}

/// Build the `veritysetup open` arguments. Params are passed explicitly because
/// the image is built with `veritysetup format --no-superblock`.
pub fn verity_args(dm_name: &str, data: &str, hash: &str, p: &VerityParams) -> (res: Vec<String>)
    ensures
        res.deep_view() == open_args(dm_name@, data@, hash@, p@),
{
    let res: Vec<String> = vec![
        "open".to_owned(),
        "--no-superblock".to_owned(),
        "--hash".to_owned(),
        "sha256".to_owned(),
        "--data-block-size".to_owned(),
        to_decimal(p.data_block_size),
        "--hash-block-size".to_owned(),
        to_decimal(p.hash_block_size),
        "--data-blocks".to_owned(),
        to_decimal(p.data_blocks),
        "--salt".to_owned(),
        p.salt.clone(),
        data.to_owned(),
        dm_name.to_owned(),
        hash.to_owned(),
        p.root_hash.clone(),
    ];
    assert(res.deep_view() =~= open_args(dm_name@, data@, hash@, p@));
    res
}

} // verus!
