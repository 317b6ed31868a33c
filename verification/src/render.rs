use vstd::prelude::*;
use vstd::string::StringExecFns;

use crate::fields::{Field, FieldModel, FieldValue, FieldValueModel};

verus! {

/// What serde_json's string encoding returns for the given characters: the
/// surrounding quotes and all escaping included. The encoding depends on
/// the characters alone.
pub uninterp spec fn json_string_of(s: Seq<char>) -> Seq<char>;

/// Relies on serde_json::to_string on a string slice: the JSON string
/// encoding (quoting and escaping) of its characters alone. Serializing a
/// string slice cannot fail, so the error arm is never taken.
#[verifier::external_body]
fn json_quote(s: &str) -> (r: String)
    ensures
        r@ == json_string_of(s@),
{
    match serde_json::to_string(s) {
        Ok(q) => q,
        Err(_) => String::new(),
    }
}

/// How one field value is written in the declarative text output: computed
/// values quoted, raw expressions verbatim, flags as bare booleans.
pub open spec fn nix_value(v: FieldValueModel) -> Seq<char> {
    match v {
        FieldValueModel::Text(s) => "\""@ + s + "\""@,
        FieldValueModel::Expr(s) => s,
        FieldValueModel::Flag(b) => if b {
            "true"@
        } else {
            "false"@
        },
    }
}

/// One line of the declarative text output.
pub open spec fn nix_line(ind: Seq<char>, f: FieldModel) -> Seq<char> {
    ind + "  "@ + f.key + " = "@ + nix_value(f.value) + ";\n"@
}

/// The lines of all fields, in order.
pub open spec fn nix_lines(ind: Seq<char>, fields: Seq<FieldModel>) -> Seq<char>
    decreases fields.len(),
{
    if fields.len() == 0 {
        Seq::empty()
    } else {
        nix_line(ind, fields[0]) + nix_lines(ind, fields.drop_first())
    }
}

/// The whole declarative text output: the backend's name, one indented
/// line per field, and the closing brace on the caller's indent.
pub open spec fn spec_render_nix(name: Seq<char>, ind: Seq<char>, fields: Seq<FieldModel>) -> Seq<
    char,
> {
    name + " {\n"@ + nix_lines(ind, fields) + ind + "}"@
}

fn append_nix_line(out: &mut String, indent: &String, f: &Field)
    ensures
        final(out)@ == old(out)@ + nix_line(indent@, f@),
{
    let ghost start = out@;
    out.append(indent.as_str());
    out.append("  ");
    out.append(f.key.as_str());
    out.append(" = ");
    match &f.value {
        FieldValue::Text(s) => {
            out.append("\"");
            out.append(s.as_str());
            out.append("\"");
        },
        FieldValue::Expr(s) => {
            out.append(s.as_str());
        },
        FieldValue::Flag(b) => {
            if *b {
                out.append("true");
            } else {
                out.append("false");
            }
        },
    }
    out.append(";\n");
    proof {
        assert(out@ =~= start + nix_line(indent@, f@));
    }
}

/// Render the merged field set as a declarative backend-invocation
/// expression.
#[verifier::loop_isolation(false)]
pub fn render_nix(name: &String, indent: &String, fields: &Vec<Field>) -> (r: String)
    ensures
        r@ == spec_render_nix(name@, indent@, fields.deep_view()),
{
    let ghost fs = fields.deep_view();
    let mut out = String::new();
    out.append(name.as_str());
    out.append(" {\n");
    let ghost mid = out@;
    let ghost mut done: Seq<char> = Seq::empty();
    proof {
        assert(out@ =~= mid + done);
        assert(fs.skip(0) =~= fs);
        assert(done + nix_lines(indent@, fs) =~= nix_lines(indent@, fs));
    }
    let mut i: usize = 0;
    while i < fields.len()
        invariant
            0 <= i <= fields@.len(),
            out@ == mid + done,
            nix_lines(indent@, fs) == done + nix_lines(indent@, fs.skip(i as int)),
        decreases fields@.len() - i,
    {
        proof {
            assert(fs.skip(i as int)[0] == fs[i as int]);
            assert(fs.skip(i as int).drop_first() =~= fs.skip(i + 1));
        }
        append_nix_line(&mut out, indent, &fields[i]);
        proof {
            done = done + nix_line(indent@, fs[i as int]);
            assert(out@ =~= mid + done);
            assert(nix_lines(indent@, fs) =~= done + nix_lines(indent@, fs.skip(i + 1)));
        }
        i = i + 1;
    }
    out.append(indent.as_str());
    out.append("}");
    proof {
        assert(fs.skip(fs.len() as int) =~= Seq::<FieldModel>::empty());
        assert(out@ =~= spec_render_nix(name@, indent@, fs));
    }
    out
}

/// How one field value is written in the JSON output: computed values as
/// JSON strings, raw expressions tagged as expression objects, flags as
/// bare booleans.
pub open spec fn json_value(v: FieldValueModel) -> Seq<char> {
    match v {
        FieldValueModel::Text(s) => json_string_of(s),
        FieldValueModel::Expr(s) => "{\"type\":\"expression\",\"value\":"@ + json_string_of(s)
            + "}"@,
        FieldValueModel::Flag(b) => if b {
            "true"@
        } else {
            "false"@
        },
    }
}

/// One member of the JSON argument object.
pub open spec fn json_member(f: FieldModel) -> Seq<char> {
    json_string_of(f.key) + ":"@ + json_value(f.value)
}

/// All members, comma-separated; `first` says whether the first of them
/// continues an empty object.
pub open spec fn json_members(fields: Seq<FieldModel>, first: bool) -> Seq<char>
    decreases fields.len(),
{
    if fields.len() == 0 {
        Seq::empty()
    } else {
        (if first {
            Seq::<char>::empty()
        } else {
            ","@
        }) + json_member(fields[0]) + json_members(fields.drop_first(), false)
    }
}

/// The whole JSON output: one object naming the backend and carrying its
/// argument fields.
pub open spec fn spec_render_json(name: Seq<char>, fields: Seq<FieldModel>) -> Seq<char> {
    "{\"fetcher\":"@ + json_string_of(name) + ",\"args\":{"@ + json_members(fields, true) + "}}"@
}

fn append_json_member(out: &mut String, f: &Field, first: bool)
    ensures
        final(out)@ == old(out)@ + (if first {
            Seq::<char>::empty()
        } else {
            ","@
        }) + json_member(f@),
{
    let ghost start = out@;
    if !first {
        out.append(",");
    }
    let qk = json_quote(f.key.as_str());
    out.append(qk.as_str());
    out.append(":");
    match &f.value {
        FieldValue::Text(s) => {
            let qv = json_quote(s.as_str());
            out.append(qv.as_str());
        },
        FieldValue::Expr(s) => {
            out.append("{\"type\":\"expression\",\"value\":");
            let qv = json_quote(s.as_str());
            out.append(qv.as_str());
            out.append("}");
        },
        FieldValue::Flag(b) => {
            if *b {
                out.append("true");
            } else {
                out.append("false");
            }
        },
    }
    proof {
        assert(out@ =~= start + (if first {
            Seq::<char>::empty()
        } else {
            ","@
        }) + json_member(f@));
    }
}

/// Render the merged field set as the JSON document.
#[verifier::loop_isolation(false)]
pub fn render_json(name: &String, fields: &Vec<Field>) -> (r: String)
    ensures
        r@ == spec_render_json(name@, fields.deep_view()),
{
    let ghost fs = fields.deep_view();
    let mut out = String::new();
    out.append("{\"fetcher\":");
    let qn = json_quote(name.as_str());
    out.append(qn.as_str());
    out.append(",\"args\":{");
    let ghost mid = out@;
    let ghost mut done: Seq<char> = Seq::empty();
    proof {
        assert(out@ =~= mid + done);
        assert(fs.skip(0) =~= fs);
        assert(done + json_members(fs, true) =~= json_members(fs, true));
    }
    let mut i: usize = 0;
    while i < fields.len()
        invariant
            0 <= i <= fields@.len(),
            out@ == mid + done,
            json_members(fs, true) == done + json_members(fs.skip(i as int), i == 0),
        decreases fields@.len() - i,
    {
        proof {
            assert(fs.skip(i as int)[0] == fs[i as int]);
            assert(fs.skip(i as int).drop_first() =~= fs.skip(i + 1));
        }
        append_json_member(&mut out, &fields[i], i == 0);
        proof {
            done = done + (if i == 0 {
                Seq::<char>::empty()
            } else {
                ","@
            }) + json_member(fs[i as int]);
            assert(out@ =~= mid + done);
            assert(json_members(fs, true) =~= done + json_members(fs.skip(i + 1), false));
        }
        i = i + 1;
    }
    out.append("}}");
    proof {
        assert(fs.skip(fs.len() as int) =~= Seq::<FieldModel>::empty());
        if fs.len() == 0 {
            assert(json_members(fs, true) =~= done);
        }
        assert(out@ =~= spec_render_json(name@, fs));
    }
    out
}

} // verus!
