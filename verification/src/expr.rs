use vstd::prelude::*;
use vstd::string::StringExecFns;

use crate::descriptor::BackendDescriptor;
use crate::fields::{zip_kv, zip_pairs};
use crate::overwrites::KvSeq;

verus! {

/// One `key="value";` binding of a declarative expression.
pub open spec fn kv_quoted(k: Seq<char>, v: Seq<char>) -> Seq<char> {
    k + "=\""@ + v + "\";"@
}

/// One `key=value;` binding whose value is a raw expression.
pub open spec fn kv_raw(k: Seq<char>, v: Seq<char>) -> Seq<char> {
    k + "="@ + v + ";"@
}

/// A run of bindings, quoted or raw throughout.
pub open spec fn kv_list(pairs: KvSeq, quoted: bool) -> Seq<char>
    decreases pairs.len(),
{
    if pairs.len() == 0 {
        Seq::empty()
    } else {
        (if quoted {
            kv_quoted(pairs[0].0, pairs[0].1)
        } else {
            kv_raw(pairs[0].0, pairs[0].1)
        }) + kv_list(pairs.drop_first(), quoted)
    }
}

/// An optional quoted binding: nothing when there is no value.
pub open spec fn opt_kv_quoted(k: Seq<char>, v: Option<Seq<char>>) -> Seq<char> {
    match v {
        Some(x) => kv_quoted(k, x),
        None => Seq::empty(),
    }
}

/// The placeholder content hash a fixed-output derivation is first built
/// with; the external mechanism reports the real hash in its place.
pub open spec fn spec_placeholder_hash() -> Seq<char> {
    "sha256-AAAAAAAAAAAAAAAAAAAAAAAAAAAAAAAAAAAAAAAAAAA="@
}

/// The declarative fixed-output-derivation expression that invokes the
/// backend by name with every known field, the placeholder hash, and all
/// extra arguments; the generic hashing strategy realizes it to learn the
/// real content hash.
pub open spec fn spec_fod_expr(
    d: crate::descriptor::DescriptorModel,
    vals: Seq<Seq<char>>,
    rev: Seq<char>,
    submodules: bool,
    args: KvSeq,
    args_str: KvSeq,
    nixpkgs: Seq<char>,
) -> Seq<char> {
    "(import("@ + nixpkgs + "){})."@ + d.name + "{"@ + opt_kv_quoted(d.host_key, d.host)
        + opt_kv_quoted("group"@, d.group) + kv_list(zip_kv(d.keys, vals), true) + kv_quoted(
        d.rev_key,
        rev,
    ) + kv_quoted(d.hash_key, spec_placeholder_hash()) + (if submodules {
        match d.submodules_key {
            Some(k) => kv_raw(
                k,
                if !d.submodules_default {
                    "true"@
                } else {
                    "false"@
                },
            ),
            None => Seq::<char>::empty(),
        }
    } else {
        Seq::<char>::empty()
    }) + kv_list(args, false) + kv_list(args_str, true) + "}"@
}

fn append_kv_quoted(out: &mut String, k: &String, v: &String)
    ensures
        final(out)@ == old(out)@ + kv_quoted(k@, v@),
{
    let ghost start = out@;
    out.append(k.as_str());
    out.append("=\"");
    out.append(v.as_str());
    out.append("\";");
    proof {
        assert(out@ =~= start + kv_quoted(k@, v@));
    }
}

fn append_kv_raw(out: &mut String, k: &String, v: &String)
    ensures
        final(out)@ == old(out)@ + kv_raw(k@, v@),
{
    let ghost start = out@;
    out.append(k.as_str());
    out.append("=");
    out.append(v.as_str());
    out.append(";");
    proof {
        assert(out@ =~= start + kv_raw(k@, v@));
    }
}

#[verifier::loop_isolation(false)]
fn append_kv_list(out: &mut String, pairs: &Vec<(String, String)>, quoted: bool)
    ensures
        final(out)@ == old(out)@ + kv_list(pairs.deep_view(), quoted),
{
    let ghost p = pairs.deep_view();
    let ghost start = out@;
    let ghost mut done: Seq<char> = Seq::empty();
    proof {
        assert(out@ =~= start + done);
        assert(p.skip(0) =~= p);
        assert(done + kv_list(p, quoted) =~= kv_list(p, quoted));
    }
    let mut i: usize = 0;
    while i < pairs.len()
        invariant
            0 <= i <= pairs@.len(),
            out@ == start + done,
            kv_list(p, quoted) == done + kv_list(p.skip(i as int), quoted),
        decreases pairs@.len() - i,
    {
        proof {
            assert(p.skip(i as int)[0] == p[i as int]);
            assert(p.skip(i as int).drop_first() =~= p.skip(i + 1));
            assert(p[i as int] == (pairs@[i as int].0@, pairs@[i as int].1@));
        }
        if quoted {
            append_kv_quoted(out, &pairs[i].0, &pairs[i].1);
        } else {
            append_kv_raw(out, &pairs[i].0, &pairs[i].1);
        }
        proof {
            done = done + (if quoted {
                kv_quoted(p[i as int].0, p[i as int].1)
            } else {
                kv_raw(p[i as int].0, p[i as int].1)
            });
            assert(out@ =~= start + done);
            assert(kv_list(p, quoted) =~= done + kv_list(p.skip(i + 1), quoted));
        }
        i = i + 1;
    }
    proof {
        assert(p.skip(p.len() as int) =~= Seq::<(Seq<char>, Seq<char>)>::empty());
        assert(out@ =~= start + kv_list(p, quoted));
    }
}

/// Build the fixed-output-derivation expression for the backend with the
/// given identifiers, revision, submodules flag and extra arguments.
pub fn build_fod_expr(
    d: &BackendDescriptor,
    values: &Vec<String>,
    rev: &String,
    submodules: bool,
    args: &Vec<(String, String)>,
    args_str: &Vec<(String, String)>,
    nixpkgs: &String,
) -> (r: String)
    requires
        values@.len() == d@.keys.len(),
    ensures
        r@ == spec_fod_expr(
            d@,
            values.deep_view(),
            rev@,
            submodules,
            args.deep_view(),
            args_str.deep_view(),
            nixpkgs@,
        ),
{
    let mut out = String::new();
    out.append("(import(");
    out.append(nixpkgs.as_str());
    out.append("){}).");
    out.append(d.name.as_str());
    out.append("{");
    match &d.host {
        Some(h) => {
            append_kv_quoted(&mut out, &d.host_key, h);
        },
        None => {},
    }
    let group_key: String = String::from_str("group");
    match &d.group {
        Some(g) => {
            append_kv_quoted(&mut out, &group_key, g);
        },
        None => {},
    }
    let key_pairs = zip_pairs(&d.keys, values);
    proof {
        assert(zip_kv(d.keys.deep_view(), values.deep_view()) =~= zip_kv(
            d@.keys,
            values.deep_view(),
        ));
    }
    append_kv_list(&mut out, &key_pairs, true);
    append_kv_quoted(&mut out, &d.rev_key, rev);
    let placeholder: String = String::from_str(
        "sha256-AAAAAAAAAAAAAAAAAAAAAAAAAAAAAAAAAAAAAAAAAAA=",
    );
    append_kv_quoted(&mut out, &d.hash_key, &placeholder);
    if submodules {
        match &d.submodules_key {
            Some(k) => {
                let flag: String = if !d.submodules_default {
                    String::from_str("true")
                } else {
                    String::from_str("false")
                };
                append_kv_raw(&mut out, k, &flag);
            },
            None => {},
        }
    }
    append_kv_list(&mut out, args, false);
    append_kv_list(&mut out, args_str, true);
    out.append("}");
    proof {
        assert(out@ =~= spec_fod_expr(
            d@,
            values.deep_view(),
            rev@,
            submodules,
            args.deep_view(),
            args_str.deep_view(),
            nixpkgs@,
        ));
    }
    out
}

} // verus!
