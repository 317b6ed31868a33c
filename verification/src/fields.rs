use vstd::prelude::*;

use crate::descriptor::{BackendDescriptor, DescriptorModel};
use crate::overwrites::{
    lemma_ov_lookup_contains, lemma_ov_lookup_index, lemma_ov_remove_absent,
    lemma_ov_remove_not_contains, lemma_ov_remove_preserves_other, ov_contains, ov_lookup,
    ov_remove, ov_unique, KvSeq, Overwrites,
};

verus! {

/// The mathematical view of one emitted field value: a quoted string
/// literal, a raw expression emitted verbatim, or a boolean flag.
pub enum FieldValueModel {
    Text(Seq<char>),
    Expr(Seq<char>),
    Flag(bool),
}

/// One emitted field value. Computed values are always safe string
/// literals (`Text`); caller overwrites and raw extra arguments are
/// trusted verbatim expressions (`Expr`); the submodules field is a
/// boolean flag (`Flag`).
pub enum FieldValue {
    Text(String),
    Expr(String),
    Flag(bool),
}

impl View for FieldValue {
    type V = FieldValueModel;

    open spec fn view(&self) -> FieldValueModel {
        match self {
            FieldValue::Text(s) => FieldValueModel::Text(s@),
            FieldValue::Expr(s) => FieldValueModel::Expr(s@),
            FieldValue::Flag(b) => FieldValueModel::Flag(*b),
        }
    }
}

impl DeepView for FieldValue {
    type V = FieldValueModel;

    open spec fn deep_view(&self) -> FieldValueModel {
        self@
    }
}

/// The mathematical view of one emitted field.
pub struct FieldModel {
    pub key: Seq<char>,
    pub value: FieldValueModel,
}

/// One field of the final output: its key and its value.
pub struct Field {
    pub key: String,
    pub value: FieldValue,
}

impl View for Field {
    type V = FieldModel;

    open spec fn view(&self) -> FieldModel {
        FieldModel { key: self.key@, value: self.value@ }
    }
}

impl DeepView for Field {
    type V = FieldModel;

    open spec fn deep_view(&self) -> FieldModel {
        self@
    }
}

/// Merge one computed field with the overwrites: an overwrite entry under
/// the field's key wins, is emitted verbatim as a raw expression, and is
/// consumed; otherwise the computed value is emitted and the overwrites
/// are left as they are.
pub open spec fn merge_key(k: Seq<char>, computed: FieldValueModel, ov: KvSeq) -> (
    Seq<FieldModel>,
    KvSeq,
) {
    match ov_lookup(ov, k) {
        Some(v) => (
            seq![FieldModel { key: k, value: FieldValueModel::Expr(v) }],
            ov_remove(ov, k),
        ),
        None => (seq![FieldModel { key: k, value: computed }], ov),
    }
}

/// Merge an optional computed field: with neither a computed value nor an
/// overwrite the field is not emitted at all.
pub open spec fn merge_opt_key(k: Seq<char>, computed: Option<Seq<char>>, ov: KvSeq) -> (
    Seq<FieldModel>,
    KvSeq,
) {
    match ov_lookup(ov, k) {
        Some(v) => (
            seq![FieldModel { key: k, value: FieldValueModel::Expr(v) }],
            ov_remove(ov, k),
        ),
        None => match computed {
            Some(c) => (seq![FieldModel { key: k, value: FieldValueModel::Text(c) }], ov),
            None => (Seq::empty(), ov),
        },
    }
}

/// Merge the submodules field: it exists only for backends that name a
/// submodules key; an overwrite wins, and otherwise the field is emitted
/// only when the resolved flag is set, as the negation of the backend's
/// default.
pub open spec fn merge_submodules(
    smk: Option<Seq<char>>,
    flag: bool,
    default: bool,
    ov: KvSeq,
) -> (Seq<FieldModel>, KvSeq) {
    match smk {
        Some(k) => match ov_lookup(ov, k) {
            Some(v) => (
                seq![FieldModel { key: k, value: FieldValueModel::Expr(v) }],
                ov_remove(ov, k),
            ),
            None => if flag {
                (seq![FieldModel { key: k, value: FieldValueModel::Flag(!default) }], ov)
            } else {
                (Seq::empty(), ov)
            },
        },
        None => (Seq::empty(), ov),
    }
}

/// Merge a list of key/value pairs in order; each computed value is a raw
/// expression when `expr_default` is set (extra raw arguments) and a
/// quoted string otherwise.
pub open spec fn merge_pairs(pairs: KvSeq, expr_default: bool, ov: KvSeq) -> (
    Seq<FieldModel>,
    KvSeq,
)
    decreases pairs.len(),
{
    if pairs.len() == 0 {
        (Seq::empty(), ov)
    } else {
        let computed = if expr_default {
            FieldValueModel::Expr(pairs[0].1)
        } else {
            FieldValueModel::Text(pairs[0].1)
        };
        let head = merge_key(pairs[0].0, computed, ov);
        let rest = merge_pairs(pairs.drop_first(), expr_default, head.1);
        (head.0 + rest.0, rest.1)
    }
}

/// The identifier keys of a backend paired with the extracted values.
pub open spec fn zip_kv(keys: Seq<Seq<char>>, vals: Seq<Seq<char>>) -> KvSeq
    recommends
        keys.len() == vals.len(),
{
    Seq::new(keys.len(), |i: int| (keys[i], vals[i]))
}

/// The overwrite entries left after the canonical pass, appended at the
/// end, each as a raw expression.
pub open spec fn leftover_fields(ov: KvSeq) -> Seq<FieldModel> {
    Seq::new(ov.len(), |i: int| FieldModel { key: ov[i].0, value: FieldValueModel::Expr(ov[i].1) })
}

/// The full field set of one invocation, in canonical order: host, group,
/// identifier keys, revision, hash, submodules, raw extra arguments,
/// string extra arguments, and then every overwrite entry that no field
/// consumed, as a raw expression.
pub open spec fn spec_merged_fields(
    d: DescriptorModel,
    vals: Seq<Seq<char>>,
    rev: Seq<char>,
    hash: Seq<char>,
    submodules: bool,
    args: KvSeq,
    args_str: KvSeq,
    ov: KvSeq,
) -> Seq<FieldModel> {
    let s1 = merge_opt_key(d.host_key, d.host, ov);
    let s2 = merge_opt_key("group"@, d.group, s1.1);
    let s3 = merge_pairs(zip_kv(d.keys, vals), false, s2.1);
    let s4 = merge_key(d.rev_key, FieldValueModel::Text(rev), s3.1);
    let s5 = merge_key(d.hash_key, FieldValueModel::Text(hash), s4.1);
    let s6 = merge_submodules(d.submodules_key, submodules, d.submodules_default, s5.1);
    let s7 = merge_pairs(args, true, s6.1);
    let s8 = merge_pairs(args_str, false, s7.1);
    s1.0 + s2.0 + s3.0 + s4.0 + s5.0 + s6.0 + s7.0 + s8.0 + leftover_fields(s8.1)
}

/// A field key present in the overwrites is emitted as a raw expression
/// carrying the overwrite's value, and the entry is consumed: under unique
/// keys it is no longer in the remaining set. A key absent from the
/// overwrites leaves them untouched and the computed value is emitted.
pub proof fn lemma_overwrite_wins(k: Seq<char>, computed: FieldValueModel, ov: KvSeq)
    ensures
        (ov_contains(ov, k) ==> merge_key(k, computed, ov).0 == seq![
            FieldModel { key: k, value: FieldValueModel::Expr(ov_lookup(ov, k)->0) },
        ]),
        (ov_contains(ov, k) && ov_unique(ov) ==> !ov_contains(merge_key(k, computed, ov).1, k)),
        (!ov_contains(ov, k) ==> merge_key(k, computed, ov).0 == seq![
            FieldModel { key: k, value: computed },
        ] && merge_key(k, computed, ov).1 == ov),
{
    lemma_ov_lookup_contains(ov, k);
    if ov_contains(ov, k) && ov_unique(ov) {
        lemma_ov_remove_not_contains(ov, k);
    }
}

proof fn lemma_merge_opt_key_preserves(k0: Seq<char>, c: Option<Seq<char>>, ov: KvSeq, k: Seq<char>)
    requires
        k != k0,
    ensures
        ov_lookup(merge_opt_key(k0, c, ov).1, k) == ov_lookup(ov, k),
{
    if ov_lookup(ov, k0) is Some {
        lemma_ov_remove_preserves_other(ov, k0, k);
    }
}

proof fn lemma_merge_key_preserves(k0: Seq<char>, c: FieldValueModel, ov: KvSeq, k: Seq<char>)
    requires
        k != k0,
    ensures
        ov_lookup(merge_key(k0, c, ov).1, k) == ov_lookup(ov, k),
{
    if ov_lookup(ov, k0) is Some {
        lemma_ov_remove_preserves_other(ov, k0, k);
    }
}

proof fn lemma_merge_submodules_preserves(
    smk: Option<Seq<char>>,
    flag: bool,
    default: bool,
    ov: KvSeq,
    k: Seq<char>,
)
    requires
        smk matches Some(sk) ==> k != sk,
    ensures
        ov_lookup(merge_submodules(smk, flag, default, ov).1, k) == ov_lookup(ov, k),
{
    match smk {
        Some(sk) => {
            if ov_lookup(ov, sk) is Some {
                lemma_ov_remove_preserves_other(ov, sk, k);
            }
        },
        None => {},
    }
}

proof fn lemma_merge_pairs_preserves(pairs: KvSeq, b: bool, ov: KvSeq, k: Seq<char>)
    requires
        forall|i: int| 0 <= i < pairs.len() ==> pairs[i].0 != k,
    ensures
        ov_lookup(merge_pairs(pairs, b, ov).1, k) == ov_lookup(ov, k),
    decreases pairs.len(),
{
    if pairs.len() > 0 {
        let computed = if b {
            FieldValueModel::Expr(pairs[0].1)
        } else {
            FieldValueModel::Text(pairs[0].1)
        };
        lemma_merge_key_preserves(pairs[0].0, computed, ov, k);
        assert forall|i: int| 0 <= i < pairs.drop_first().len() implies pairs.drop_first()[i].0
            != k by {
            assert(pairs[i + 1].0 != k);
        }
        lemma_merge_pairs_preserves(pairs.drop_first(), b, merge_key(pairs[0].0, computed, ov).1, k);
    }
}

/// An overwrite whose key no computed field carries survives the whole
/// canonical pass and is appended at the end of the plan as a raw
/// expression with its own value.
pub proof fn lemma_unmatched_overwrite_appended(
    d: DescriptorModel,
    vals: Seq<Seq<char>>,
    rev: Seq<char>,
    hash: Seq<char>,
    submodules: bool,
    args: KvSeq,
    args_str: KvSeq,
    ov: KvSeq,
    k: Seq<char>,
)
    requires
        ov_contains(ov, k),
        k != d.host_key,
        k != "group"@,
        k != d.rev_key,
        k != d.hash_key,
        (d.submodules_key matches Some(sk) ==> k != sk),
        forall|i: int| 0 <= i < d.keys.len() ==> d.keys[i] != k,
        forall|i: int| 0 <= i < args.len() ==> args[i].0 != k,
        forall|i: int| 0 <= i < args_str.len() ==> args_str[i].0 != k,
    ensures
        ({
            let plan = spec_merged_fields(d, vals, rev, hash, submodules, args, args_str, ov);
            exists|j: int|
                0 <= j < plan.len() && plan[j] == (FieldModel {
                    key: k,
                    value: FieldValueModel::Expr(ov_lookup(ov, k)->0),
                })
        }),
{
    let s1 = merge_opt_key(d.host_key, d.host, ov);
    let s2 = merge_opt_key("group"@, d.group, s1.1);
    let s3 = merge_pairs(zip_kv(d.keys, vals), false, s2.1);
    let s4 = merge_key(d.rev_key, FieldValueModel::Text(rev), s3.1);
    let s5 = merge_key(d.hash_key, FieldValueModel::Text(hash), s4.1);
    let s6 = merge_submodules(d.submodules_key, submodules, d.submodules_default, s5.1);
    let s7 = merge_pairs(args, true, s6.1);
    let s8 = merge_pairs(args_str, false, s7.1);
    lemma_merge_opt_key_preserves(d.host_key, d.host, ov, k);
    lemma_merge_opt_key_preserves("group"@, d.group, s1.1, k);
    assert forall|i: int| 0 <= i < zip_kv(d.keys, vals).len() implies zip_kv(d.keys, vals)[i].0
        != k by {
        assert(d.keys[i] != k);
    }
    lemma_merge_pairs_preserves(zip_kv(d.keys, vals), false, s2.1, k);
    lemma_merge_key_preserves(d.rev_key, FieldValueModel::Text(rev), s3.1, k);
    lemma_merge_key_preserves(d.hash_key, FieldValueModel::Text(hash), s4.1, k);
    lemma_merge_submodules_preserves(d.submodules_key, submodules, d.submodules_default, s5.1, k);
    lemma_merge_pairs_preserves(args, true, s6.1, k);
    lemma_merge_pairs_preserves(args_str, false, s7.1, k);
    lemma_ov_lookup_contains(ov, k);
    assert(ov_lookup(s8.1, k) == ov_lookup(ov, k));
    lemma_ov_lookup_index(s8.1, k);
    let i0 = choose|i: int|
        0 <= i < s8.1.len() && s8.1[i].0 == k && s8.1[i].1 == ov_lookup(s8.1, k)->0;
    let plan = spec_merged_fields(d, vals, rev, hash, submodules, args, args_str, ov);
    let prefix = s1.0 + s2.0 + s3.0 + s4.0 + s5.0 + s6.0 + s7.0 + s8.0;
    assert(plan =~= prefix + leftover_fields(s8.1));
    let j = prefix.len() + i0;
    assert(plan[j as int] == leftover_fields(s8.1)[i0]);
    assert(leftover_fields(s8.1)[i0] == (FieldModel {
        key: k,
        value: FieldValueModel::Expr(ov_lookup(ov, k)->0),
    }));
}

/// An optional quoted-string field: nothing when there is no value.
pub open spec fn opt_text_field(k: Seq<char>, v: Option<Seq<char>>) -> Seq<FieldModel> {
    match v {
        Some(x) => seq![FieldModel { key: k, value: FieldValueModel::Text(x) }],
        None => Seq::empty(),
    }
}

/// The field set of the descriptor-only preview: the identifier keys with
/// their values, then host, group and revision where present; no hash, no
/// merger, no network work.
pub open spec fn spec_descriptor_fields(
    d: DescriptorModel,
    vals: Seq<Seq<char>>,
    rev: Option<Seq<char>>,
) -> Seq<FieldModel> {
    text_fields(zip_kv(d.keys, vals)) + opt_text_field(d.host_key, d.host) + opt_text_field(
        "group"@,
        d.group,
    ) + opt_text_field(d.rev_key, rev)
}

/// Build the descriptor-only field set: which backend and which arguments
/// would be used, before any revision or hash is known.
#[verifier::loop_isolation(false)]
pub fn descriptor_fields(d: &BackendDescriptor, values: &Vec<String>, rev: &Option<String>) -> (r:
    Vec<Field>)
    requires
        values@.len() == d@.keys.len(),
    ensures
        r.deep_view() == spec_descriptor_fields(d@, values.deep_view(), rev.deep_view()),
{
    let mut out: Vec<Field> = Vec::new();
    let mut i: usize = 0;
    while i < d.keys.len()
        invariant
            0 <= i <= d.keys@.len(),
            values@.len() == d.keys@.len(),
            out@.len() == i,
            forall|j: int| #![auto]
                0 <= j < i ==> out@[j]@ == (FieldModel {
                    key: d.keys@[j]@,
                    value: FieldValueModel::Text(values@[j]@),
                }),
        decreases d.keys@.len() - i,
    {
        out.push(Field { key: d.keys[i].clone(), value: FieldValue::Text(values[i].clone()) });
        i = i + 1;
    }
    proof {
        assert forall|j: int| 0 <= j < out.deep_view().len() implies #[trigger] out.deep_view()[j]
            == text_fields(zip_kv(d@.keys, values.deep_view()))[j] by {
            assert(out@[j]@ == (FieldModel {
                key: d.keys@[j]@,
                value: FieldValueModel::Text(values@[j]@),
            }));
        }
        assert(out.deep_view() =~= text_fields(zip_kv(d@.keys, values.deep_view())));
    }
    match &d.host {
        Some(h) => {
            out.push(Field { key: d.host_key.clone(), value: FieldValue::Text(h.clone()) });
        },
        None => {},
    }
    match &d.group {
        Some(g) => {
            out.push(
                Field { key: String::from_str("group"), value: FieldValue::Text(g.clone()) },
            );
        },
        None => {},
    }
    match rev {
        Some(rv) => {
            out.push(Field { key: d.rev_key.clone(), value: FieldValue::Text(rv.clone()) });
        },
        None => {},
    }
    proof {
        assert(out.deep_view() =~= spec_descriptor_fields(d@, values.deep_view(), rev.deep_view()));
    }
    out
}

/// A field assignment on a field set: an existing field under the same key
/// keeps its place and takes the new value; a new key is appended at the
/// end. Assignment is last-write-wins, which is what lets overwrites
/// applied after the computed fields take precedence.
pub open spec fn upsert(fields: Seq<FieldModel>, f: FieldModel) -> Seq<FieldModel>
    decreases fields.len(),
{
    if fields.len() == 0 {
        seq![f]
    } else if fields[0].key == f.key {
        seq![f] + fields.drop_first()
    } else {
        seq![fields[0]] + upsert(fields.drop_first(), f)
    }
}

/// All the given fields assigned in order.
pub open spec fn upsert_all(fields: Seq<FieldModel>, items: Seq<FieldModel>) -> Seq<FieldModel>
    decreases items.len(),
{
    if items.len() == 0 {
        fields
    } else {
        upsert_all(upsert(fields, items[0]), items.drop_first())
    }
}

/// Key/value pairs as quoted-string fields.
pub open spec fn text_fields(pairs: KvSeq) -> Seq<FieldModel> {
    Seq::new(pairs.len(), |i: int| FieldModel { key: pairs[i].0, value: FieldValueModel::Text(pairs[i].1) })
}

/// The field set of the JSON output: the merged field set, with the
/// caller's string overwrites assigned last as quoted strings.
pub open spec fn spec_json_fields(
    d: DescriptorModel,
    vals: Seq<Seq<char>>,
    rev: Seq<char>,
    hash: Seq<char>,
    submodules: bool,
    args: KvSeq,
    args_str: KvSeq,
    ov: KvSeq,
    ov_str: KvSeq,
) -> Seq<FieldModel> {
    upsert_all(
        spec_merged_fields(d, vals, rev, hash, submodules, args, args_str, ov),
        text_fields(ov_str),
    )
}

/// Text and JSON output consume one and the same merged field set: with no
/// string overwrites, the JSON field set is exactly the text-mode field
/// set, so the two serializers agree on which fields are present and on
/// which of them are raw expressions, quoted strings, or flags.
pub proof fn lemma_serializers_agree(
    d: DescriptorModel,
    vals: Seq<Seq<char>>,
    rev: Seq<char>,
    hash: Seq<char>,
    submodules: bool,
    args: KvSeq,
    args_str: KvSeq,
    ov: KvSeq,
)
    ensures
        spec_json_fields(
            d,
            vals,
            rev,
            hash,
            submodules,
            args,
            args_str,
            ov,
            Seq::empty(),
        ) == spec_merged_fields(d, vals, rev, hash, submodules, args, args_str, ov),
{
    assert(text_fields(Seq::empty()).len() == 0);
}

proof fn lemma_upsert_first_match(fs: Seq<FieldModel>, f: FieldModel, i: int)
    requires
        0 <= i < fs.len(),
        fs[i].key == f.key,
        forall|j: int| 0 <= j < i ==> fs[j].key != f.key,
    ensures
        upsert(fs, f) == fs.update(i, f),
    decreases i,
{
    if i == 0 {
        assert(upsert(fs, f) =~= fs.update(0, f));
    } else {
        assert forall|j: int| 0 <= j < i - 1 implies fs.drop_first()[j].key != f.key by {
            assert(fs[j + 1].key != f.key);
        }
        lemma_upsert_first_match(fs.drop_first(), f, i - 1);
        assert(upsert(fs, f) =~= fs.update(i, f));
    }
}

proof fn lemma_upsert_no_match(fs: Seq<FieldModel>, f: FieldModel)
    requires
        forall|j: int| 0 <= j < fs.len() ==> fs[j].key != f.key,
    ensures
        upsert(fs, f) == fs.push(f),
    decreases fs.len(),
{
    if fs.len() == 0 {
        assert(upsert(fs, f) =~= fs.push(f));
    } else {
        assert forall|j: int| 0 <= j < fs.drop_first().len() implies fs.drop_first()[j].key
            != f.key by {
            assert(fs[j + 1].key != f.key);
        }
        lemma_upsert_no_match(fs.drop_first(), f);
        assert(upsert(fs, f) =~= fs.push(f));
    }
}

#[verifier::loop_isolation(false)]
fn upsert_field(fields: &mut Vec<Field>, f: Field)
    ensures
        final(fields).deep_view() == upsert(old(fields).deep_view(), f@),
{
    let ghost fs = fields.deep_view();
    let mut i: usize = 0;
    while i < fields.len()
        invariant
            0 <= i <= fields@.len(),
            fields.deep_view() == fs,
            forall|j: int| 0 <= j < i ==> fs[j].key != f@.key,
        decreases fields@.len() - i,
    {
        assert(fs[i as int].key == fields@[i as int].key@);
        if fields[i].key == f.key {
            proof {
                lemma_upsert_first_match(fs, f@, i as int);
            }
            fields.set(i, f);
            proof {
                assert(fields.deep_view() =~= fs.update(i as int, f@));
            }
            return ;
        }
        i = i + 1;
    }
    proof {
        lemma_upsert_no_match(fs, f@);
    }
    fields.push(f);
    proof {
        assert(fields.deep_view() =~= fs.push(f@));
    }
}

/// Assign the caller's string overwrites onto the field set, each as a
/// quoted string, last write winning.
#[verifier::loop_isolation(false)]
pub fn apply_text_overwrites(fields: &mut Vec<Field>, ov_str: &Vec<(String, String)>)
    ensures
        final(fields).deep_view() == upsert_all(
            old(fields).deep_view(),
            text_fields(ov_str.deep_view()),
        ),
{
    let ghost fs0 = fields.deep_view();
    let ghost items = text_fields(ov_str.deep_view());
    proof {
        assert(items.skip(0) =~= items);
    }
    let mut i: usize = 0;
    while i < ov_str.len()
        invariant
            0 <= i <= ov_str@.len(),
            upsert_all(fs0, items) == upsert_all(fields.deep_view(), items.skip(i as int)),
        decreases ov_str@.len() - i,
    {
        let ghost cur = fields.deep_view();
        proof {
            assert(items.skip(i as int)[0] == items[i as int]);
            assert(items.skip(i as int).drop_first() =~= items.skip(i + 1));
            assert(items[i as int] == (FieldModel {
                key: ov_str@[i as int].0@,
                value: FieldValueModel::Text(ov_str@[i as int].1@),
            }));
        }
        let f = Field {
            key: ov_str[i].0.clone(),
            value: FieldValue::Text(ov_str[i].1.clone()),
        };
        upsert_field(fields, f);
        proof {
            assert(upsert_all(cur, items.skip(i as int)) == upsert_all(
                upsert(cur, items[i as int]),
                items.skip(i + 1),
            ));
        }
        i = i + 1;
    }
    proof {
        assert(items.skip(items.len() as int) =~= Seq::<FieldModel>::empty());
    }
}

/// Pair each identifier key with its extracted value, in order.
pub fn zip_pairs(keys: &Vec<String>, values: &Vec<String>) -> (r: Vec<(String, String)>)
    requires
        keys@.len() == values@.len(),
    ensures
        r.deep_view() == zip_kv(keys.deep_view(), values.deep_view()),
{
    let mut key_pairs: Vec<(String, String)> = Vec::new();
    let mut i: usize = 0;
    while i < keys.len()
        invariant
            0 <= i <= keys@.len(),
            values@.len() == keys@.len(),
            key_pairs@.len() == i,
            forall|j: int| #![auto] 0 <= j < i ==> key_pairs@[j].0@ == keys@[j]@,
            forall|j: int| #![auto] 0 <= j < i ==> key_pairs@[j].1@ == values@[j]@,
        decreases keys@.len() - i,
    {
        let pair = (keys[i].clone(), values[i].clone());
        proof {
            assert(pair.0@ == keys@[i as int]@);
            assert(pair.1@ == values@[i as int]@);
        }
        key_pairs.push(pair);
        i = i + 1;
    }
    proof {
        assert forall|j: int| 0 <= j < key_pairs.deep_view().len() implies #[trigger] key_pairs
            .deep_view()[j] == zip_kv(keys.deep_view(), values.deep_view())[j] by {
            assert(key_pairs@[j].0@ == keys@[j]@ && key_pairs@[j].1@ == values@[j]@);
        }
        assert(key_pairs.deep_view() =~= zip_kv(keys.deep_view(), values.deep_view()));
    }
    key_pairs
}

fn merge_key_exec(out: &mut Vec<Field>, key: &String, computed: FieldValue, ov: &mut Overwrites)
    ensures
        ({
            let m = merge_key(key@, computed@, old(ov)@);
            final(out).deep_view() == old(out).deep_view() + m.0 && final(ov)@ == m.1
        }),
{
    let ghost prev = out.deep_view();
    match ov.remove(key) {
        Some(v) => {
            out.push(Field { key: key.clone(), value: FieldValue::Expr(v) });
        },
        None => {
            proof {
                lemma_ov_remove_absent(old(ov)@, key@);
            }
            out.push(Field { key: key.clone(), value: computed });
        },
    }
    proof {
        assert(out.deep_view() =~= prev + merge_key(key@, computed@, old(ov)@).0);
    }
}

fn merge_opt_key_exec(
    out: &mut Vec<Field>,
    key: &String,
    computed: &Option<String>,
    ov: &mut Overwrites,
)
    ensures
        ({
            let m = merge_opt_key(key@, computed.deep_view(), old(ov)@);
            final(out).deep_view() == old(out).deep_view() + m.0 && final(ov)@ == m.1
        }),
{
    let ghost prev = out.deep_view();
    match ov.remove(key) {
        Some(v) => {
            out.push(Field { key: key.clone(), value: FieldValue::Expr(v) });
        },
        None => {
            proof {
                lemma_ov_remove_absent(old(ov)@, key@);
            }
            match computed {
                Some(c) => {
                    out.push(Field { key: key.clone(), value: FieldValue::Text(c.clone()) });
                },
                None => {},
            }
        },
    }
    proof {
        assert(out.deep_view() =~= prev + merge_opt_key(key@, computed.deep_view(), old(ov)@).0);
    }
}

fn merge_submodules_exec(
    out: &mut Vec<Field>,
    smk: &Option<String>,
    flag: bool,
    default: bool,
    ov: &mut Overwrites,
)
    ensures
        ({
            let m = merge_submodules(smk.deep_view(), flag, default, old(ov)@);
            final(out).deep_view() == old(out).deep_view() + m.0 && final(ov)@ == m.1
        }),
{
    let ghost prev = out.deep_view();
    match smk {
        Some(k) => {
            match ov.remove(k) {
                Some(v) => {
                    out.push(Field { key: k.clone(), value: FieldValue::Expr(v) });
                },
                None => {
                    proof {
                        lemma_ov_remove_absent(old(ov)@, k@);
                    }
                    if flag {
                        out.push(Field { key: k.clone(), value: FieldValue::Flag(!default) });
                    }
                },
            }
        },
        None => {},
    }
    proof {
        assert(out.deep_view() =~= prev + merge_submodules(
            smk.deep_view(),
            flag,
            default,
            old(ov)@,
        ).0);
    }
}

#[verifier::loop_isolation(false)]
fn merge_pairs_exec(
    out: &mut Vec<Field>,
    pairs: &Vec<(String, String)>,
    expr_default: bool,
    ov: &mut Overwrites,
)
    ensures
        ({
            let m = merge_pairs(pairs.deep_view(), expr_default, old(ov)@);
            final(out).deep_view() == old(out).deep_view() + m.0 && final(ov)@ == m.1
        }),
{
    let ghost p = pairs.deep_view();
    let ghost spec_res = merge_pairs(p, expr_default, ov@);
    let ghost out0 = out.deep_view();
    let ghost mut done: Seq<FieldModel> = Seq::empty();
    proof {
        assert(out.deep_view() =~= out0 + done);
        assert(p.skip(0) =~= p);
        assert(done + merge_pairs(p, expr_default, ov@).0 =~= merge_pairs(p, expr_default, ov@).0);
    }
    let mut i: usize = 0;
    while i < pairs.len()
        invariant
            0 <= i <= pairs@.len(),
            out.deep_view() == out0 + done,
            spec_res.0 == done + merge_pairs(p.skip(i as int), expr_default, ov@).0,
            spec_res.1 == merge_pairs(p.skip(i as int), expr_default, ov@).1,
        decreases pairs@.len() - i,
    {
        let ghost ov_before = ov@;
        let ghost suffix = p.skip(i as int);
        proof {
            assert(suffix.len() > 0);
            assert(suffix[0] == p[i as int]);
            assert(suffix.drop_first() =~= p.skip(i + 1));
        }
        let key = pairs[i].0.clone();
        let computed = if expr_default {
            FieldValue::Expr(pairs[i].1.clone())
        } else {
            FieldValue::Text(pairs[i].1.clone())
        };
        proof {
            assert(key@ == p[i as int].0);
            assert(computed@ == (if expr_default {
                FieldValueModel::Expr(p[i as int].1)
            } else {
                FieldValueModel::Text(p[i as int].1)
            }));
        }
        merge_key_exec(out, &key, computed, ov);
        proof {
            let head = merge_key(suffix[0].0, (if expr_default {
                FieldValueModel::Expr(suffix[0].1)
            } else {
                FieldValueModel::Text(suffix[0].1)
            }), ov_before);
            assert(merge_pairs(suffix, expr_default, ov_before).0 == head.0 + merge_pairs(
                p.skip(i + 1),
                expr_default,
                head.1,
            ).0);
            assert(merge_pairs(suffix, expr_default, ov_before).1 == merge_pairs(
                p.skip(i + 1),
                expr_default,
                head.1,
            ).1);
            assert(ov@ == head.1);
            done = done + head.0;
            assert(done + merge_pairs(p.skip(i + 1), expr_default, ov@).0 =~= spec_res.0);
        }
        i = i + 1;
    }
    proof {
        assert(p.skip(p.len() as int) =~= Seq::<(Seq<char>, Seq<char>)>::empty());
        assert(done + merge_pairs(p.skip(p.len() as int), expr_default, ov@).0 =~= done);
        assert(out.deep_view() =~= out0 + spec_res.0);
    }
}

#[verifier::loop_isolation(false)]
fn leftover_exec(out: &mut Vec<Field>, ov: Overwrites)
    ensures
        final(out).deep_view() == old(out).deep_view() + leftover_fields(ov@),
{
    let ghost out0 = out.deep_view();
    let ghost n0 = out@.len();
    let mut i: usize = 0;
    while i < ov.entries.len()
        invariant
            0 <= i <= ov.entries@.len(),
            out@.len() == n0 + i,
            n0 == out0.len(),
            forall|j: int| #![auto] 0 <= j < n0 ==> out@[j]@ == out0[j],
            forall|j: int| #![auto]
                0 <= j < i ==> out@[n0 + j]@ == (FieldModel {
                    key: ov.entries@[j].0@,
                    value: FieldValueModel::Expr(ov.entries@[j].1@),
                }),
        decreases ov.entries@.len() - i,
    {
        let key = ov.entries[i].0.clone();
        let value = ov.entries[i].1.clone();
        out.push(Field { key, value: FieldValue::Expr(value) });
        i = i + 1;
    }
    proof {
        assert forall|j: int| 0 <= j < out.deep_view().len() implies #[trigger] out.deep_view()[j]
            == (out0 + leftover_fields(ov@))[j] by {
            if j >= n0 {
                assert(ov@[j - n0] == (ov.entries@[j - n0].0@, ov.entries@[j - n0].1@));
            }
        }
        assert(out.deep_view() =~= out0 + leftover_fields(ov@));
    }
}

/// Compute the final ordered field set of one invocation: every computed
/// field merged against the overwrites in canonical order, with the
/// unconsumed overwrites appended at the end as raw expressions.
pub fn merged_fields(
    d: &BackendDescriptor,
    values: &Vec<String>,
    rev: &String,
    hash: &String,
    submodules: bool,
    args: &Vec<(String, String)>,
    args_str: &Vec<(String, String)>,
    overwrites: Overwrites,
) -> (r: Vec<Field>)
    requires
        values@.len() == d@.keys.len(),
    ensures
        r.deep_view() == spec_merged_fields(
            d@,
            values.deep_view(),
            rev@,
            hash@,
            submodules,
            args.deep_view(),
            args_str.deep_view(),
            overwrites@,
        ),
{
    let ghost ov0 = overwrites@;
    let mut ov = overwrites;
    let mut out: Vec<Field> = Vec::new();
    proof {
        assert(out.deep_view() =~= Seq::<FieldModel>::empty());
    }
    merge_opt_key_exec(&mut out, &d.host_key, &d.host, &mut ov);
    let group_key: String = String::from_str("group");
    merge_opt_key_exec(&mut out, &group_key, &d.group, &mut ov);
    let key_pairs = zip_pairs(&d.keys, values);
    proof {
        assert(zip_kv(d.keys.deep_view(), values.deep_view()) =~= zip_kv(
            d@.keys,
            values.deep_view(),
        ));
    }
    merge_pairs_exec(&mut out, &key_pairs, false, &mut ov);
    merge_key_exec(&mut out, &d.rev_key, FieldValue::Text(rev.clone()), &mut ov);
    merge_key_exec(&mut out, &d.hash_key, FieldValue::Text(hash.clone()), &mut ov);
    merge_submodules_exec(&mut out, &d.submodules_key, submodules, d.submodules_default, &mut ov);
    merge_pairs_exec(&mut out, args, true, &mut ov);
    merge_pairs_exec(&mut out, args_str, false, &mut ov);
    leftover_exec(&mut out, ov);
    proof {
        assert(out.deep_view() =~= spec_merged_fields(
            d@,
            values.deep_view(),
            rev@,
            hash@,
            submodules,
            args.deep_view(),
            args_str.deep_view(),
            ov0,
        ));
    }
    out
}

} // verus!
