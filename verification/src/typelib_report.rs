//! The generated reports of the type-library audit: which records each
//! report shows, in which order, and how each row renders them; the source
//! manifest and the artifact set of one audit.

use vstd::prelude::*;

use crate::evidence::{
    find_field, frame_lines, insert_distinct, jsonl_text, strictly_ordered, texts_of, FieldKind, Record,
};
use crate::typelib::{
    candidate_ids, candidate_list, optional_member_ids, optional_member_list, range_member_ids,
    range_member_list, AuditData, AuditInput, FileEvidence,
};
use crate::report::{escape_toml, toml_escaped};
use crate::runtime_report::{cj, fstr, fstr_of, ftext, push_cj, push_ftext};
use crate::text::{
    chars_of, joined, matches_at, push_decimal, push_str, slice_chars, str_eq, string_of,
};

verus! {

/// The path of member `key` of the object at `node`, the record itself
/// being the node with the empty path.
pub open spec fn member_path(node: Seq<char>, key: Seq<char>) -> Seq<char> {
    if node.len() == 0 {
        key
    } else {
        node + "/"@ + key
    }
}

/// The node whose `kind` member is at `path`.
pub open spec fn kind_owner(path: Seq<char>) -> Option<Seq<char>> {
    if path == "kind"@ {
        Some(Seq::empty())
    } else if path.len() > 5 && path.subrange(path.len() - 5, path.len() as int) == "/kind"@ {
        Some(path.subrange(0, path.len() - 5))
    } else {
        None
    }
}

proof fn lemma_kind_owner(node: Seq<char>)
    ensures
        kind_owner(member_path(node, "kind"@)) == Some(node),
{
    reveal_strlit("kind");
    reveal_strlit("/kind");
    reveal_strlit("/");
    let p = member_path(node, "kind"@);
    if node.len() == 0 {
        assert(p == "kind"@);
        assert(node =~= Seq::<char>::empty());
    } else {
        assert(p.len() == node.len() + 5);
        assert(p != "kind"@);
        assert(p.subrange(p.len() - 5, p.len() as int) =~= "/kind"@);
        assert(p.subrange(0, p.len() - 5) =~= node);
    }
}

proof fn lemma_find_field_position(r: Record, path: Seq<char>)
    requires
        find_field(r.fields@, path) is Some,
    ensures
        exists|j: int| 0 <= j < r.fields@.len() && (#[trigger] r.fields@[j]).path@ == path,
{
    lemma_find_in(r.fields@, path);
}

proof fn lemma_find_in(fields: Seq<crate::evidence::Field>, path: Seq<char>)
    requires
        find_field(fields, path) is Some,
    ensures
        exists|j: int| 0 <= j < fields.len() && (#[trigger] fields[j]).path@ == path,
    decreases fields.len(),
{
    if fields[0].path@ != path {
        lemma_find_in(fields.drop_first(), path);
        let j = choose|j: int|
            0 <= j < fields.drop_first().len() && (#[trigger] fields.drop_first()[j]).path@ == path;
        assert(fields[j + 1] == fields.drop_first()[j]);
    }
}

fn kind_owner_of(path: &str) -> (o: Option<String>)
    ensures
        match o {
            Some(n) => kind_owner(path@) == Some(n@),
            None => kind_owner(path@) is None,
        },
{
    proof {
        reveal_strlit("kind");
        reveal_strlit("/kind");
    }
    if str_eq(path, "kind") {
        return Some(String::new());
    }
    let chars = chars_of(path);
    let suffix = chars_of("/kind");
    if chars.len() > 5 && matches_at(&chars, &suffix, chars.len() - 5) {
        let node = slice_chars(&chars, 0, chars.len() - 5);
        return Some(string_of(&node));
    }
    None
}

fn member_path_string(node: &str, key: &str) -> (p: String)
    ensures
        p@ == member_path(node@, key@),
{
    let mut p = String::new();
    if chars_of(node).len() > 0 {
        push_str(&mut p, node);
        push_str(&mut p, "/");
    }
    push_str(&mut p, key);
    p
}

/// The kind of the declared type at `path`: the object's string `kind`,
/// `unknown` where it has none, `--` where no object is there.
pub open spec fn type_label(r: Record, path: Seq<char>) -> Seq<char> {
    match find_field(r.fields@, path) {
        Some(f) => if f.kind == FieldKind::Object {
            match fstr(r, member_path(path, "kind"@)) {
                Some(t) => t,
                None => "unknown"@,
            }
        } else {
            "--"@
        },
        None => "--"@,
    }
}

fn push_type_label(s: &mut String, r: &Record, path: &str)
    ensures
        final(s)@ == old(s)@ + type_label(*r, path@),
{
    match crate::evidence::field(r, path) {
        Some(f) => if f.kind == FieldKind::Object {
            let kind_path = member_path_string(path, "kind");
            match fstr_of(r, kind_path.as_str()) {
                Some(t) => push_str(s, t),
                None => push_str(s, "unknown"),
            }
        } else {
            push_str(s, "--");
        },
        None => push_str(s, "--"),
    }
}

/// Some object inside the record is the declared enum `name`.
pub open spec fn names_enum(r: Record, name: Seq<char>) -> bool {
    exists|node: Seq<char>|
        #[trigger] fstr(r, member_path(node, "kind"@)) == Some("enum"@) && fstr(
            r,
            member_path(node, "name"@),
        ) == Some(name)
}

/// `names` lists, in string order and once each, the enums the record
/// declares a dependency on.
pub open spec fn lists_enums(r: Record, names: Seq<Seq<char>>) -> bool {
    &&& strictly_ordered(names)
    &&& forall|n: Seq<char>| #[trigger] names.contains(n) <==> names_enum(r, n)
}

/// The enum dependencies as a cell: each as `Excel.{name}` in backticks,
/// comma-separated; `--` where there are none.
pub open spec fn enums_cell(names: Seq<Seq<char>>) -> Seq<char> {
    if names.len() == 0 {
        "--"@
    } else {
        joined(names.map_values(|n: Seq<char>| "`Excel."@ + n + "`"@), ", "@)
    }
}

/// The field at position `j` is the `kind` of an enum object named `n`.
pub open spec fn enum_at(r: Record, j: int, n: Seq<char>) -> bool {
    &&& kind_owner(r.fields@[j].path@) matches Some(node)
    &&& fstr(r, r.fields@[j].path@) == Some("enum"@)
    &&& fstr(r, member_path(node, "name"@)) == Some(n)
}

/// The enums that the record depends on, in string order.
fn enum_dependencies(r: &Record) -> (names: Vec<String>)
    ensures
        lists_enums(*r, texts_of(names@)),
{
    let mut names: Vec<String> = Vec::new();
    let mut i: usize = 0;
    while i < r.fields.len()
        invariant
            i <= r.fields@.len(),
            strictly_ordered(texts_of(names@)),
            forall|n: Seq<char>| #[trigger] texts_of(names@).contains(n) ==> names_enum(*r, n),
            forall|j: int, n: Seq<char>|
                0 <= j < i && #[trigger] enum_at(*r, j, n) ==> texts_of(names@).contains(n),
        decreases r.fields.len() - i,
    {
        let ghost before = texts_of(names@);
        let path = r.fields[i].path.as_str();
        match kind_owner_of(path) {
            Some(node) => {
                let is_enum = match fstr_of(r, path) {
                    Some(t) => str_eq(t, "enum"),
                    None => false,
                };
                if is_enum {
                    let name_path = member_path_string(node.as_str(), "name");
                    match fstr_of(r, name_path.as_str()) {
                        Some(n) => {
                            proof {
                                lemma_kind_owner(node@);
                                assert(member_path(node@, "kind"@) == path@) by {
                                    assert(kind_owner(path@) == Some(node@));
                                    reveal_strlit("kind");
                                    reveal_strlit("/kind");
                                    if node@.len() == 0 {
                                        assert(path@ == "kind"@ || path@.len() > 5);
                                        if path@ != "kind"@ {
                                            assert(path@.subrange(0, path@.len() - 5).len() > 0);
                                        }
                                    } else {
                                        assert(path@ =~= path@.subrange(0, path@.len() - 5)
                                            + path@.subrange(path@.len() - 5, path@.len() as int));
                                    }
                                }
                            }
                            insert_distinct(&mut names, n);
                        },
                        None => {},
                    }
                }
            },
            None => {},
        }
        i = i + 1;
    }
    proof {
        let t = texts_of(names@);
        assert forall|n: Seq<char>| names_enum(*r, n) implies #[trigger] t.contains(n) by {
            let node = choose|node: Seq<char>|
                #[trigger] fstr(*r, member_path(node, "kind"@)) == Some("enum"@) && fstr(
                    *r,
                    member_path(node, "name"@),
                ) == Some(n);
            let kp = member_path(node, "kind"@);
            reveal(fstr);
            lemma_find_field_position(*r, kp);
            let j = choose|j: int| 0 <= j < r.fields@.len() && (#[trigger] r.fields@[j]).path@ == kp;
            lemma_kind_owner(node);
            assert(enum_at(*r, j, n));
        }
    }
    names
}

/// Two strictly ordered lists of the same texts are the same list.
pub proof fn lemma_ordered_texts_unique(a: Seq<Seq<char>>, b: Seq<Seq<char>>)
    requires
        strictly_ordered(a),
        strictly_ordered(b),
        forall|v: Seq<char>| #[trigger] a.contains(v) <==> b.contains(v),
    ensures
        a == b,
    decreases a.len() + b.len(),
{
    if a.len() == 0 {
        if b.len() > 0 {
            assert(b.contains(b[0]));
            assert(a.contains(b[0]));
        }
        assert(a =~= b);
    } else if b.len() == 0 {
        assert(a.contains(a[0]));
        assert(b.contains(a[0]));
    } else {
        let x = a.last();
        let y = b.last();
        assert(a.contains(x));
        assert(b.contains(x));
        assert(b.contains(y));
        assert(a.contains(y));
        let ia = choose|i: int| 0 <= i < a.len() && a[i] == y;
        let ib = choose|i: int| 0 <= i < b.len() && b[i] == x;
        if x != y {
            crate::evidence::lemma_lex_total(x, y);
            if ia < a.len() - 1 {
                assert(crate::evidence::lex_lt(a[ia], a[a.len() - 1]));
            }
            if ib < b.len() - 1 {
                assert(crate::evidence::lex_lt(b[ib], b[b.len() - 1]));
            }
            if crate::evidence::lex_lt(x, y) {
                crate::evidence::lemma_lex_asymmetric(x, y);
            } else {
                crate::evidence::lemma_lex_asymmetric(y, x);
            }
        }
        assert(x == y);
        let a2 = a.drop_last();
        let b2 = b.drop_last();
        assert forall|v: Seq<char>| #[trigger] a2.contains(v) <==> b2.contains(v) by {
            if a2.contains(v) {
                let i = choose|i: int| 0 <= i < a2.len() && a2[i] == v;
                assert(crate::evidence::lex_lt(a[i], a[a.len() - 1]));
                crate::evidence::lemma_lex_irreflexive(v);
                assert(a.contains(v));
                assert(b.contains(v));
                let j = choose|j: int| 0 <= j < b.len() && b[j] == v;
                assert(j != b.len() - 1);
                assert(b2[j] == v);
            }
            if b2.contains(v) {
                let i = choose|i: int| 0 <= i < b2.len() && b2[i] == v;
                assert(crate::evidence::lex_lt(b[i], b[b.len() - 1]));
                crate::evidence::lemma_lex_irreflexive(v);
                assert(b.contains(v));
                assert(a.contains(v));
                let j = choose|j: int| 0 <= j < a.len() && a[j] == v;
                assert(j != a.len() - 1);
                assert(a2[j] == v);
            }
        }
        lemma_ordered_texts_unique(a2, b2);
        assert(a =~= a2.push(x));
        assert(b =~= b2.push(y));
    }
}

/// The enums a record depends on, in string order.
pub open spec fn enum_list(r: Record) -> Seq<Seq<char>> {
    choose|names: Seq<Seq<char>>| lists_enums(r, names)
}

fn enum_dependencies_of(r: &Record) -> (names: Vec<String>)
    ensures
        texts_of(names@) == enum_list(*r),
{
    let names = enum_dependencies(r);
    proof {
        let t = texts_of(names@);
        assert(lists_enums(*r, t));
        let c = enum_list(*r);
        assert(lists_enums(*r, c));
        assert forall|v: Seq<char>| #[trigger] t.contains(v) <==> c.contains(v) by {
            assert(t.contains(v) <==> names_enum(*r, v));
            assert(c.contains(v) <==> names_enum(*r, v));
        }
        lemma_ordered_texts_unique(t, c);
    }
    names
}

fn push_enums_cell(s: &mut String, r: &Record)
    ensures
        final(s)@ == old(s)@ + enums_cell(enum_list(*r)),
{
    let names = enum_dependencies_of(r);
    if names.len() == 0 {
        push_str(s, "--");
        return;
    }
    let ghost start = s@;
    let ghost views = texts_of(names@).map_values(|n: Seq<char>| "`Excel."@ + n + "`"@);
    let mut i: usize = 0;
    while i < names.len()
        invariant
            i <= names@.len(),
            views == texts_of(names@).map_values(|n: Seq<char>| "`Excel."@ + n + "`"@),
            s@ == start + joined(views.take(i as int), ", "@),
        decreases names.len() - i,
    {
        if i > 0 {
            push_str(s, ", ");
        }
        push_str(s, "`Excel.");
        push_str(s, names[i].as_str());
        push_str(s, "`");
        let ghost prefix = views.take(i + 1);
        assert(prefix.drop_last() =~= views.take(i as int));
        assert(views[i as int] == "`Excel."@ + names@[i as int]@ + "`"@);
        i = i + 1;
        proof {
            if i == 1 {
                assert(s@ =~= start + joined(views.take(1), ", "@));
            } else {
                assert(s@ =~= start + joined(views.take(i as int), ", "@));
            }
        }
    }
    assert(views.take(i as int) =~= views);
}

/// The table rows of the keyed reports.
#[derive(Debug, Clone, Copy, PartialEq, Eq, Structural)]
pub enum TypelibRow {
    Candidate,
    Collection,
    Range,
    Optional,
}

pub open spec fn candidate_row(key: Seq<char>, r: Record) -> Seq<char> {
    "| `"@ + key + "` | `"@ + ftext(r, "owner"@) + "/"@ + ftext(
            r,
            "typelib_interface"@,
        ) + "` | `"@ + ftext(r, "name"@) + "` | "@ + ftext(r, "dispid"@) + " | `"@ + ftext(
            r,
            "invoke_kind"@,
        ) + "` | `"@ + type_label(r, "return_type"@) + "` | "@ + ftext(r, "parameter_count"@)
            + " | "@ + ftext(r, "optional_parameter_count"@) + " | "@ + enums_cell(enum_list(r))
            + " | Typelib verified | Runtime verification required: declared metadata does not establish behavior. |\n"@
}

#[verifier::rlimit(40)]
fn push_candidate_row(s: &mut String, key: &str, r: &Record)
    ensures
        final(s)@ == old(s)@ + candidate_row(key@, *r),
{
    let ghost start = s@;
    push_str(s, "| `");
    push_str(s, key);
    push_str(s, "` | `");
    push_ftext(s, r, "owner");
    push_str(s, "/");
    push_ftext(s, r, "typelib_interface");
    push_str(s, "` | `");
    push_ftext(s, r, "name");
    push_str(s, "` | ");
    push_ftext(s, r, "dispid");
    push_str(s, " | `");
    push_ftext(s, r, "invoke_kind");
    push_str(s, "` | `");
    push_type_label(s, r, "return_type");
    push_str(s, "` | ");
    push_ftext(s, r, "parameter_count");
    push_str(s, " | ");
    push_ftext(s, r, "optional_parameter_count");
    push_str(s, " | ");
    push_enums_cell(s, r);
    push_str(
        s,
        " | Typelib verified | Runtime verification required: declared metadata does not establish behavior. |\n",
    );
    assert(s@ =~= start + candidate_row(key@, *r));
}

pub open spec fn collection_row(key: Seq<char>, r: Record) -> Seq<char> {
    "| `"@ + key + "` | `"@ + ftext(r, "name"@) + "` | "@ + ftext(
            r,
            "dispid"@,
        ) + " | `"@ + ftext(r, "invoke_kind"@) + "` | `"@ + type_label(r, "return_type"@) + "` | "@
            + ftext(r, "parameter_count"@) + " | "@ + ftext(r, "hidden"@) + "/"@ + ftext(
            r,
            "restricted"@,
        ) + " | "@ + ftext(r, "default_member"@) + " |\n"@
}

#[verifier::rlimit(40)]
fn push_collection_row(s: &mut String, key: &str, r: &Record)
    ensures
        final(s)@ == old(s)@ + collection_row(key@, *r),
{
    let ghost start = s@;
    push_str(s, "| `");
    push_str(s, key);
    push_str(s, "` | `");
    push_ftext(s, r, "name");
    push_str(s, "` | ");
    push_ftext(s, r, "dispid");
    push_str(s, " | `");
    push_ftext(s, r, "invoke_kind");
    push_str(s, "` | `");
    push_type_label(s, r, "return_type");
    push_str(s, "` | ");
    push_ftext(s, r, "parameter_count");
    push_str(s, " | ");
    push_ftext(s, r, "hidden");
    push_str(s, "/");
    push_ftext(s, r, "restricted");
    push_str(s, " | ");
    push_ftext(s, r, "default_member");
    push_str(s, " |\n");
    assert(s@ =~= start + collection_row(key@, *r));
}

pub open spec fn range_row(key: Seq<char>, r: Record) -> Seq<char> {
    "| `"@ + key + "` | `"@ + ftext(r, "invoke_kind"@) + "` | `"@
            + type_label(r, "return_type"@) + "` | "@ + ftext(r, "parameter_count"@) + " | "@
            + ftext(r, "optional_parameter_count"@) + " | "@ + ftext(r, "default_member"@)
            + " | Runtime verification required. |\n"@
}

#[verifier::rlimit(40)]
fn push_range_row(s: &mut String, key: &str, r: &Record)
    ensures
        final(s)@ == old(s)@ + range_row(key@, *r),
{
    let ghost start = s@;
    push_str(s, "| `");
    push_str(s, key);
    push_str(s, "` | `");
    push_ftext(s, r, "invoke_kind");
    push_str(s, "` | `");
    push_type_label(s, r, "return_type");
    push_str(s, "` | ");
    push_ftext(s, r, "parameter_count");
    push_str(s, " | ");
    push_ftext(s, r, "optional_parameter_count");
    push_str(s, " | ");
    push_ftext(s, r, "default_member");
    push_str(s, " | Runtime verification required. |\n");
    assert(s@ =~= start + range_row(key@, *r));
}

pub open spec fn optional_row(key: Seq<char>, r: Record) -> Seq<char> {
    "| `"@ + key + "` | "@ + ftext(r, "ordinal"@) + " | `"@ + ftext(
            r,
            "name"@,
        ) + "` | `"@ + type_label(r, "type"@) + "` | `"@ + cj(r, "param_flags"@) + "` | "@ + cj(
            r,
            "default"@,
        ) + " | "@ + (if ftext(r, "optional"@) == "true"@ {
            "optional"@
        } else {
            "required"@
        }) + " | "@ + enums_cell(enum_list(r)) + " | Runtime verification required. |\n"@
}

#[verifier::rlimit(40)]
fn push_optional_row(s: &mut String, key: &str, r: &Record)
    ensures
        final(s)@ == old(s)@ + optional_row(key@, *r),
{
    let ghost start = s@;
    push_str(s, "| `");
    push_str(s, key);
    push_str(s, "` | ");
    push_ftext(s, r, "ordinal");
    push_str(s, " | `");
    push_ftext(s, r, "name");
    push_str(s, "` | `");
    push_type_label(s, r, "type");
    push_str(s, "` | `");
    push_cj(s, r, "param_flags");
    push_str(s, "` | ");
    push_cj(s, r, "default");
    push_str(s, " | ");
    let optional = crate::runtime_report::ftext_string(r, "optional");
    if str_eq(optional.as_str(), "true") {
        push_str(s, "optional");
    } else {
        push_str(s, "required");
    }
    push_str(s, " | ");
    push_enums_cell(s, r);
    push_str(s, " | Runtime verification required. |\n");
    assert(s@ =~= start + optional_row(key@, *r));
}

pub open spec fn typelib_row(kind: TypelibRow, key: Seq<char>, r: Record) -> Seq<char> {
    match kind {
        TypelibRow::Candidate => candidate_row(key, r),
        TypelibRow::Collection => collection_row(key, r),
        TypelibRow::Range => range_row(key, r),
        TypelibRow::Optional => optional_row(key, r),
    }
}

fn push_typelib_row(s: &mut String, kind: TypelibRow, key: &str, r: &Record)
    ensures
        final(s)@ == old(s)@ + typelib_row(kind, key@, *r),
{
    match kind {
        TypelibRow::Candidate => push_candidate_row(s, key, r),
        TypelibRow::Collection => push_collection_row(s, key, r),
        TypelibRow::Range => push_range_row(s, key, r),
        TypelibRow::Optional => push_optional_row(s, key, r),
    }
}

/// The rows of `records` whose string at `path` is `key`, in order, each
/// rendered as a `kind` row.
pub open spec fn matching_rows(records: Seq<Record>, path: Seq<char>, key: Seq<char>, kind: TypelibRow) -> Seq<char>
    decreases records.len(),
{
    if records.len() == 0 {
        Seq::empty()
    } else {
        matching_rows(records.drop_last(), path, key, kind) + if fstr(records.last(), path) == Some(key) {
            typelib_row(kind, key, records.last())
        } else {
            Seq::empty()
        }
    }
}

/// Some record's string at `path` is `key`.
pub open spec fn has_match(records: Seq<Record>, path: Seq<char>, key: Seq<char>) -> bool {
    exists|k: int| 0 <= k < records.len() && #[trigger] fstr(records[k], path) == Some(key)
}

fn push_matching_rows(s: &mut String, records: &Vec<Record>, path: &str, key: &str, kind: TypelibRow) -> (found: bool)
    ensures
        final(s)@ == old(s)@ + matching_rows(records@, path@, key@, kind),
        found == has_match(records@, path@, key@),
{
    let ghost start = s@;
    let mut found = false;
    let mut i: usize = 0;
    while i < records.len()
        invariant
            i <= records@.len(),
            s@ == start + matching_rows(records@.take(i as int), path@, key@, kind),
            found == has_match(records@.take(i as int), path@, key@),
        decreases records.len() - i,
    {
        let ghost prefix = records@.take(i as int);
        let ghost next = records@.take(i + 1);
        assert(next.drop_last() =~= prefix);
        let hit = match fstr_of(&records[i], path) {
            Some(t) => str_eq(t, key),
            None => false,
        };
        if hit {
            push_typelib_row(s, kind, key, &records[i]);
            found = true;
        }
        proof {
            assert(next.last() == records@[i as int]);
            if has_match(next, path@, key@) && !hit {
                let k = choose|k: int| 0 <= k < next.len() && #[trigger] fstr(next[k], path@) == Some(key@);
                assert(prefix[k] == next[k]);
            }
            if has_match(prefix, path@, key@) {
                let k = choose|k: int| 0 <= k < prefix.len() && #[trigger] fstr(prefix[k], path@) == Some(key@);
                assert(next[k] == prefix[k]);
            }
            if hit {
                assert(fstr(next[i as int], path@) == Some(key@));
            }
        }
        i = i + 1;
        assert(s@ =~= start + matching_rows(records@.take(i as int), path@, key@, kind));
    }
    assert(records@.take(i as int) =~= records@);
    found
}

/// For each key in order, the rows of `records` whose string at `path` is
/// that key.
pub open spec fn keyed_rows(keys: Seq<Seq<char>>, records: Seq<Record>, path: Seq<char>, kind: TypelibRow) -> Seq<char>
    decreases keys.len(),
{
    if keys.len() == 0 {
        Seq::empty()
    } else {
        keyed_rows(keys.drop_last(), records, path, kind) + matching_rows(records, path, keys.last(), kind)
    }
}

fn push_keyed_rows(s: &mut String, keys: &Vec<&'static str>, records: &Vec<Record>, path: &str, kind: TypelibRow)
    ensures
        final(s)@ == old(s)@ + keyed_rows(keys@.map_values(|k: &str| k@), records@, path@, kind),
{
    let ghost start = s@;
    let ghost texts = keys@.map_values(|k: &str| k@);
    let mut i: usize = 0;
    while i < keys.len()
        invariant
            i <= keys@.len(),
            texts == keys@.map_values(|k: &str| k@),
            s@ == start + keyed_rows(texts.take(i as int), records@, path@, kind),
        decreases keys.len() - i,
    {
        assert(texts.take(i + 1).drop_last() =~= texts.take(i as int));
        assert(texts.take(i + 1).last() == keys@[i as int]@);
        push_matching_rows(s, records, path, keys[i], kind);
        i = i + 1;
        assert(s@ =~= start + keyed_rows(texts.take(i as int), records@, path@, kind));
    }
    assert(texts.take(i as int) =~= texts);
}

pub open spec fn missing_candidate_row(candidate: Seq<char>) -> Seq<char> {
    "| `"@ + candidate + "` | -- | -- | -- | -- | -- | -- | -- | -- | Missing from installed typelib | Runtime verification required if later resolved. |\n"@
}

/// A candidate's rows: its members, or one row that it is missing.
pub open spec fn candidate_section(candidate: Seq<char>, members: Seq<Record>) -> Seq<char> {
    if has_match(members, "canonical_documentation_id"@, candidate) {
        matching_rows(members, "canonical_documentation_id"@, candidate, TypelibRow::Candidate)
    } else {
        missing_candidate_row(candidate)
    }
}

pub open spec fn candidate_sections(candidates: Seq<Seq<char>>, members: Seq<Record>) -> Seq<char>
    decreases candidates.len(),
{
    if candidates.len() == 0 {
        Seq::empty()
    } else {
        candidate_sections(candidates.drop_last(), members) + candidate_section(candidates.last(), members)
    }
}

/// A parameter belongs to one of the members of candidate `id`: its string
/// `member_id` is the string `id` of such a member.
pub open spec fn optional_selected(p: Record, members: Seq<Record>, id: Seq<char>) -> bool {
    exists|k: int|
        0 <= k < members.len() && fstr(#[trigger] members[k], "canonical_documentation_id"@) == Some(id)
            && fstr(members[k], "id"@) is Some && fstr(p, "member_id"@) == fstr(members[k], "id"@)
}

pub open spec fn optional_rows(parameters: Seq<Record>, members: Seq<Record>, id: Seq<char>) -> Seq<char>
    decreases parameters.len(),
{
    if parameters.len() == 0 {
        Seq::empty()
    } else {
        optional_rows(parameters.drop_last(), members, id) + if optional_selected(parameters.last(), members, id) {
            optional_row(id, parameters.last())
        } else {
            Seq::empty()
        }
    }
}

pub open spec fn optional_sections(ids: Seq<Seq<char>>, parameters: Seq<Record>, members: Seq<Record>) -> Seq<char>
    decreases ids.len(),
{
    if ids.len() == 0 {
        Seq::empty()
    } else {
        optional_sections(ids.drop_last(), parameters, members) + optional_rows(parameters, members, ids.last())
    }
}

fn is_optional_selected(p: &Record, members: &Vec<Record>, id: &str) -> (b: bool)
    ensures
        b == optional_selected(*p, members@, id@),
{
    let member_id = fstr_of(p, "member_id");
    let mut k: usize = 0;
    while k < members.len()
        invariant
            k <= members@.len(),
            member_id matches Some(t) ==> fstr(*p, "member_id"@) == Some(t@),
            member_id is None ==> fstr(*p, "member_id"@) is None,
            forall|j: int|
                0 <= j < k ==> !(fstr(#[trigger] members@[j], "canonical_documentation_id"@) == Some(id@)
                    && fstr(members@[j], "id"@) is Some && fstr(*p, "member_id"@) == fstr(members@[j], "id"@)),
        decreases members.len() - k,
    {
        let m = &members[k];
        let same_candidate = match fstr_of(m, "canonical_documentation_id") {
            Some(t) => str_eq(t, id),
            None => false,
        };
        if same_candidate {
            match (fstr_of(m, "id"), member_id) {
                (Some(a), Some(b)) => {
                    if str_eq(a, b) {
                        return true;
                    }
                },
                _ => {},
            }
        }
        k = k + 1;
    }
    false
}

fn push_optional_rows(s: &mut String, parameters: &Vec<Record>, members: &Vec<Record>, id: &str)
    ensures
        final(s)@ == old(s)@ + optional_rows(parameters@, members@, id@),
{
    let ghost start = s@;
    let mut i: usize = 0;
    while i < parameters.len()
        invariant
            i <= parameters@.len(),
            s@ == start + optional_rows(parameters@.take(i as int), members@, id@),
        decreases parameters.len() - i,
    {
        assert(parameters@.take(i + 1).drop_last() =~= parameters@.take(i as int));
        if is_optional_selected(&parameters[i], members, id) {
            push_optional_row(s, id, &parameters[i]);
        }
        i = i + 1;
        assert(s@ =~= start + optional_rows(parameters@.take(i as int), members@, id@));
    }
    assert(parameters@.take(i as int) =~= parameters@);
}

pub open spec fn typelib_header(title: Seq<char>, detail: Seq<char>) -> Seq<char> {
    "# "@ + title + "\n\nGenerated by `excel-com-typelib-audit`; do not edit by hand. "@ + detail + "\n\nThis is declared type-library metadata only. It does not establish Excel runtime behavior, activation, collection index bases, omitted-argument behavior, VARIANT runtime types, or SAFEARRAY shape.\n\n"@
}

fn typelib_header_string(title: &str, detail: &str) -> (s: String)
    ensures
        s@ == typelib_header(title@, detail@),
{
    let mut s = String::new();
    push_str(&mut s, "# ");
    push_str(&mut s, title);
    push_str(&mut s, "\n\nGenerated by `excel-com-typelib-audit`; do not edit by hand. ");
    push_str(&mut s, detail);
    push_str(&mut s, "\n\nThis is declared type-library metadata only. It does not establish Excel runtime behavior, activation, collection index bases, omitted-argument behavior, VARIANT runtime types, or SAFEARRAY shape.\n\n");
    s
}

pub open spec fn candidate_report_text(members: Seq<Record>) -> Seq<char> {
    typelib_header("Candidate 0.1 signatures"@, "Every Prompt 03 candidate is classified from the installed type library; none is runtime verified."@)
        + "| Canonical documentation ID | Typelib owner/interface | Member | DISPID | INVOKEKIND | Return type | Parameters | Optional | Enum dependencies | Audit result | Remaining runtime gate |\n| --- | --- | --- | ---: | --- | --- | ---: | ---: | --- | --- | --- |\n"@ + candidate_sections(candidate_list(), members)
}

/// Each candidate's audited members, or that it is missing, in candidate
/// order.
pub fn candidate_report(data: &AuditData) -> (s: String)
    ensures
        s@ == candidate_report_text(data.members@),
{
    let mut s = typelib_header_string("Candidate 0.1 signatures", "Every Prompt 03 candidate is classified from the installed type library; none is runtime verified.");
    push_str(&mut s, "| Canonical documentation ID | Typelib owner/interface | Member | DISPID | INVOKEKIND | Return type | Parameters | Optional | Enum dependencies | Audit result | Remaining runtime gate |\n| --- | --- | --- | ---: | --- | --- | ---: | ---: | --- | --- | --- |\n");
    let ghost start = s@;
    let candidates = candidate_ids();
    let ghost texts = candidates@.map_values(|k: &str| k@);
    let mut i: usize = 0;
    while i < candidates.len()
        invariant
            i <= candidates@.len(),
            texts == candidates@.map_values(|k: &str| k@),
            texts == candidate_list(),
            s@ == start + candidate_sections(texts.take(i as int), data.members@),
        decreases candidates.len() - i,
    {
        assert(texts.take(i + 1).drop_last() =~= texts.take(i as int));
        assert(texts.take(i + 1).last() == candidates@[i as int]@);
        let mut rows = String::new();
        let found = push_matching_rows(&mut rows, &data.members, "canonical_documentation_id", candidates[i], TypelibRow::Candidate);
        if found {
            push_str(&mut s, rows.as_str());
        } else {
            push_str(&mut s, "| `");
            push_str(&mut s, candidates[i]);
            push_str(&mut s, "` | -- | -- | -- | -- | -- | -- | -- | -- | Missing from installed typelib | Runtime verification required if later resolved. |\n");
        }
        i = i + 1;
        assert(s@ =~= start + candidate_sections(texts.take(i as int), data.members@));
    }
    assert(texts.take(i as int) =~= texts);
    s
}

pub open spec fn collection_owner_list() -> Seq<Seq<char>> {
    seq![
        "Excel.Workbooks"@,
        "Excel.Worksheets"@,
        "Excel.Sheets"@,
        "Excel.Windows"@,
        "Excel.Names"@,
        "Excel.ListObjects"@,
        "Excel.ChartObjects"@,
        "Excel.Shapes"@,
    ]
}

fn collection_owners() -> (v: Vec<&'static str>)
    ensures
        v@.map_values(|k: &str| k@) == collection_owner_list(),
{
    let mut v: Vec<&'static str> = Vec::new();
    v.push("Excel.Workbooks");
    v.push("Excel.Worksheets");
    v.push("Excel.Sheets");
    v.push("Excel.Windows");
    v.push("Excel.Names");
    v.push("Excel.ListObjects");
    v.push("Excel.ChartObjects");
    v.push("Excel.Shapes");
    assert(v@.map_values(|k: &str| k@) =~= collection_owner_list());
    v
}

pub open spec fn collections_report_text(members: Seq<Record>) -> Seq<char> {
    typelib_header("Collection contracts"@, "Collection metadata does not determine runtime indexing or enumeration behavior."@)
        + "| Collection | Member | DISPID | INVOKEKIND | Return type | Parameters | Hidden/restricted | Default member |\n| --- | --- | ---: | --- | --- | ---: | --- | --- |\n"@ + keyed_rows(collection_owner_list(), members, "owner"@, TypelibRow::Collection)
        + "\n`_NewEnum` and default-member evidence above is declared metadata only; runtime indexing, name lookup, and enumeration lifetime remain runtime gates.\n"@
}

/// The members of each audited collection, collection by collection.
pub fn collections_report(data: &AuditData) -> (s: String)
    ensures
        s@ == collections_report_text(data.members@),
{
    let mut s = typelib_header_string("Collection contracts", "Collection metadata does not determine runtime indexing or enumeration behavior.");
    push_str(&mut s, "| Collection | Member | DISPID | INVOKEKIND | Return type | Parameters | Hidden/restricted | Default member |\n| --- | --- | ---: | --- | --- | ---: | --- | --- |\n");
    let owners = collection_owners();
    push_keyed_rows(&mut s, &owners, &data.members, "owner", TypelibRow::Collection);
    push_str(&mut s, "\n`_NewEnum` and default-member evidence above is declared metadata only; runtime indexing, name lookup, and enumeration lifetime remain runtime gates.\n");
    s
}

pub open spec fn range_report_text(members: Seq<Record>) -> Seq<char> {
    typelib_header("Range declarations"@, "Range VARIANT declarations do not establish the actual runtime VARTYPE or SAFEARRAY dimensions and bounds."@)
        + "| Canonical member | INVOKEKIND | Return type | Parameters | Optional | Default member | Runtime boundary |\n| --- | --- | --- | ---: | ---: | --- | --- |\n"@ + keyed_rows(range_member_list(), members, "canonical_documentation_id"@, TypelibRow::Range)
}

/// The declarations of the audited Range members, member by member.
pub fn range_report(data: &AuditData) -> (s: String)
    ensures
        s@ == range_report_text(data.members@),
{
    let mut s = typelib_header_string("Range declarations", "Range VARIANT declarations do not establish the actual runtime VARTYPE or SAFEARRAY dimensions and bounds.");
    push_str(&mut s, "| Canonical member | INVOKEKIND | Return type | Parameters | Optional | Default member | Runtime boundary |\n| --- | --- | --- | ---: | ---: | --- | --- |\n");
    let ids = range_member_ids();
    push_keyed_rows(&mut s, &ids, &data.members, "canonical_documentation_id", TypelibRow::Range);
    s
}

pub open spec fn optional_arguments_report_text(parameters: Seq<Record>, members: Seq<Record>) -> Seq<char> {
    typelib_header("Optional-argument contracts"@, "Rows retain declared parameter order, flags, and default evidence without designing Rust options builders."@)
        + "| Member | Ordinal | Parameter | Type | Flags | Default | Required/optional | Enum | Runtime omission gate |\n| --- | ---: | --- | --- | --- | --- | --- | --- | --- |\n"@ + optional_sections(optional_member_list(), parameters, members)
}

/// The parameters of the members with audited optional arguments, member by
/// member, in declared order.
pub fn optional_arguments_report(data: &AuditData) -> (s: String)
    ensures
        s@ == optional_arguments_report_text(data.parameters@, data.members@),
{
    let mut s = typelib_header_string("Optional-argument contracts", "Rows retain declared parameter order, flags, and default evidence without designing Rust options builders.");
    push_str(&mut s, "| Member | Ordinal | Parameter | Type | Flags | Default | Required/optional | Enum | Runtime omission gate |\n| --- | ---: | --- | --- | --- | --- | --- | --- | --- |\n");
    let ghost start = s@;
    let ids = optional_member_ids();
    let ghost texts = ids@.map_values(|k: &str| k@);
    let mut i: usize = 0;
    while i < ids.len()
        invariant
            i <= ids@.len(),
            texts == ids@.map_values(|k: &str| k@),
            texts == optional_member_list(),
            s@ == start + optional_sections(texts.take(i as int), data.parameters@, data.members@),
        decreases ids.len() - i,
    {
        assert(texts.take(i + 1).drop_last() =~= texts.take(i as int));
        assert(texts.take(i + 1).last() == ids@[i as int]@);
        push_optional_rows(&mut s, &data.parameters, &data.members, ids[i]);
        i = i + 1;
        assert(s@ =~= start + optional_sections(texts.take(i as int), data.parameters@, data.members@));
    }
    assert(texts.take(i as int) =~= texts);
    s
}

/// The first record whose string at `path` is `key`.
pub open spec fn first_with(records: Seq<Record>, path: Seq<char>, key: Seq<char>) -> Option<Record>
    decreases records.len(),
{
    if records.len() == 0 {
        None
    } else if fstr(records[0], path) == Some(key) {
        Some(records[0])
    } else {
        first_with(records.drop_first(), path, key)
    }
}

fn first_with_of<'a>(records: &'a Vec<Record>, path: &str, key: &str) -> (r: Option<&'a Record>)
    ensures
        match r {
            Some(x) => first_with(records@, path@, key@) == Some(*x),
            None => first_with(records@, path@, key@) is None,
        },
{
    let mut i: usize = 0;
    assert(records@.skip(0) =~= records@);
    while i < records.len()
        invariant
            i <= records@.len(),
            first_with(records@, path@, key@) == first_with(records@.skip(i as int), path@, key@),
        decreases records.len() - i,
    {
        let ghost rest = records@.skip(i as int);
        assert(rest[0] == records@[i as int]);
        let hit = match fstr_of(&records[i], path) {
            Some(t) => str_eq(t, key),
            None => false,
        };
        if hit {
            return Some(&records[i]);
        }
        assert(rest.drop_first() =~= records@.skip(i + 1));
        i = i + 1;
    }
    None
}

/// How many records hold the string `key` at `path`.
pub open spec fn count_with(records: Seq<Record>, path: Seq<char>, key: Seq<char>) -> nat
    decreases records.len(),
{
    if records.len() == 0 {
        0
    } else {
        count_with(records.drop_last(), path, key) + if fstr(records.last(), path) == Some(key) {
            1nat
        } else {
            0nat
        }
    }
}

fn count_with_of(records: &Vec<Record>, path: &str, key: &str) -> (n: usize)
    ensures
        n == count_with(records@, path@, key@),
{
    let mut n: usize = 0;
    let mut i: usize = 0;
    while i < records.len()
        invariant
            i <= records@.len(),
            n == count_with(records@.take(i as int), path@, key@),
            n <= i,
        decreases records.len() - i,
    {
        assert(records@.take(i + 1).drop_last() =~= records@.take(i as int));
        let hit = match fstr_of(&records[i], path) {
            Some(t) => str_eq(t, key),
            None => false,
        };
        if hit {
            n = n + 1;
        }
        i = i + 1;
    }
    assert(records@.take(i as int) =~= records@);
    n
}

pub open spec fn spine_owner_list() -> Seq<Seq<char>> {
    seq![
        "Excel.Application"@,
        "Excel.Workbooks"@,
        "Excel.Workbook"@,
        "Excel.Worksheets"@,
        "Excel.Worksheet"@,
        "Excel.Range"@,
    ]
}

fn spine_owners() -> (v: Vec<&'static str>)
    ensures
        v@.map_values(|k: &str| k@) == spine_owner_list(),
{
    let mut v: Vec<&'static str> = Vec::new();
    v.push("Excel.Application");
    v.push("Excel.Workbooks");
    v.push("Excel.Workbook");
    v.push("Excel.Worksheets");
    v.push("Excel.Worksheet");
    v.push("Excel.Range");
    assert(v@.map_values(|k: &str| k@) =~= spine_owner_list());
    v
}

/// An owner's interface identity and its number of audited members.
pub open spec fn spine_row(owner: Seq<char>, interfaces: Seq<Record>, members: Seq<Record>) -> Seq<char> {
    let count = count_with(members, "owner"@, owner);
    match first_with(interfaces, "canonical_owner"@, owner) {
        Some(r) => "| `"@ + owner + "` | `"@ + ftext(r, "name"@) + "` | `"@ + ftext(r, "guid"@) + "` | "@
            + ftext(r, "type_flags_raw"@) + " | "@ + crate::text::decimal(count) + " |\n"@,
        None => "| `"@ + owner + "` | -- | -- | -- | "@ + crate::text::decimal(count) + " |\n"@,
    }
}

pub open spec fn spine_rows(owners: Seq<Seq<char>>, interfaces: Seq<Record>, members: Seq<Record>) -> Seq<char>
    decreases owners.len(),
{
    if owners.len() == 0 {
        Seq::empty()
    } else {
        spine_rows(owners.drop_last(), interfaces, members) + spine_row(owners.last(), interfaces, members)
    }
}

pub open spec fn coclass_lines(coclasses: Seq<Record>) -> Seq<char>
    decreases coclasses.len(),
{
    if coclasses.len() == 0 {
        Seq::empty()
    } else {
        coclass_lines(coclasses.drop_last()) + "- `"@ + ftext(coclasses.last(), "id"@) + "`: "@ + cj(
            coclasses.last(),
            "implemented_interfaces"@,
        ) + "\n"@
    }
}

pub open spec fn spine_report_text(interfaces: Seq<Record>, members: Seq<Record>, coclasses: Seq<Record>) -> Seq<char> {
    typelib_header("Architectural spine typelib audit"@, "Core interface identities and member counts are taken from the installed Excel library."@)
        + "| Canonical object | Typelib interface | GUID | Type flags | Audited members |\n| --- | --- | --- | ---: | ---: |\n"@ + spine_rows(spine_owner_list(), interfaces, members) + "\n## Application coclass\n\n"@
        + coclass_lines(coclasses)
}

fn push_spine_row(s: &mut String, owner: &str, interfaces: &Vec<Record>, members: &Vec<Record>)
    ensures
        final(s)@ == old(s)@ + spine_row(owner@, interfaces@, members@),
{
    let ghost start = s@;
    let count = count_with_of(members, "owner", owner);
    push_str(s, "| `");
    push_str(s, owner);
    match first_with_of(interfaces, "canonical_owner", owner) {
        Some(r) => {
            push_str(s, "` | `");
            push_ftext(s, r, "name");
            push_str(s, "` | `");
            push_ftext(s, r, "guid");
            push_str(s, "` | ");
            push_ftext(s, r, "type_flags_raw");
            push_str(s, " | ");
        },
        None => {
            push_str(s, "` | -- | -- | -- | ");
        },
    }
    push_decimal(s, count as u64);
    push_str(s, " |\n");
    assert(s@ =~= start + spine_row(owner@, interfaces@, members@));
}

/// The core interfaces with their member counts, then the Application
/// coclass and the interfaces it implements.
pub fn spine_report(data: &AuditData) -> (s: String)
    ensures
        s@ == spine_report_text(data.interfaces@, data.members@, data.coclasses@),
{
    let mut s = typelib_header_string("Architectural spine typelib audit", "Core interface identities and member counts are taken from the installed Excel library.");
    push_str(&mut s, "| Canonical object | Typelib interface | GUID | Type flags | Audited members |\n| --- | --- | --- | ---: | ---: |\n");
    let ghost start = s@;
    let owners = spine_owners();
    let ghost texts = owners@.map_values(|k: &str| k@);
    let mut i: usize = 0;
    while i < owners.len()
        invariant
            i <= owners@.len(),
            texts == owners@.map_values(|k: &str| k@),
            texts == spine_owner_list(),
            s@ == start + spine_rows(texts.take(i as int), data.interfaces@, data.members@),
        decreases owners.len() - i,
    {
        assert(texts.take(i + 1).drop_last() =~= texts.take(i as int));
        assert(texts.take(i + 1).last() == owners@[i as int]@);
        push_spine_row(&mut s, owners[i], &data.interfaces, &data.members);
        i = i + 1;
        assert(s@ =~= start + spine_rows(texts.take(i as int), data.interfaces@, data.members@));
    }
    assert(texts.take(i as int) =~= texts);
    push_str(&mut s, "\n## Application coclass\n\n");
    let ghost middle = s@;
    let mut k: usize = 0;
    while k < data.coclasses.len()
        invariant
            k <= data.coclasses@.len(),
            s@ == middle + coclass_lines(data.coclasses@.take(k as int)),
        decreases data.coclasses.len() - k,
    {
        assert(data.coclasses@.take(k + 1).drop_last() =~= data.coclasses@.take(k as int));
        push_str(&mut s, "- `");
        push_ftext(&mut s, &data.coclasses[k], "id");
        push_str(&mut s, "`: ");
        push_cj(&mut s, &data.coclasses[k], "implemented_interfaces");
        push_str(&mut s, "\n");
        k = k + 1;
        assert(s@ =~= middle + coclass_lines(data.coclasses@.take(k as int)));
    }
    assert(data.coclasses@.take(k as int) =~= data.coclasses@);
    s
}

pub open spec fn library_field_list() -> Seq<Seq<char>> {
    seq![
        "name"@,
        "guid"@,
        "major_version"@,
        "minor_version"@,
        "lcid"@,
        "syskind"@,
        "type_info_count"@,
    ]
}

fn library_fields() -> (v: Vec<&'static str>)
    ensures
        v@.map_values(|k: &str| k@) == library_field_list(),
{
    let mut v: Vec<&'static str> = Vec::new();
    v.push("name");
    v.push("guid");
    v.push("major_version");
    v.push("minor_version");
    v.push("lcid");
    v.push("syskind");
    v.push("type_info_count");
    assert(v@.map_values(|k: &str| k@) =~= library_field_list());
    v
}

pub open spec fn library_rows(fields: Seq<Seq<char>>, library: Record) -> Seq<char>
    decreases fields.len(),
{
    if fields.len() == 0 {
        Seq::empty()
    } else {
        library_rows(fields.drop_last(), library) + "| "@ + fields.last() + " | `"@ + ftext(library, fields.last())
            + "` |\n"@
    }
}

pub open spec fn library_summary_text(data: AuditData) -> Seq<char> {
    typelib_header("Excel type-library summary"@, "The source manifest records a portable file identity and no raw user path."@)
        + "| Field | Value |\n| --- | --- |\n"@ + library_rows(library_field_list(), data.library)
        + "\n| Audited coclasses | Interfaces | Members | Parameters | Enums | Aliases | Unresolved |\n| ---: | ---: | ---: | ---: | ---: | ---: | ---: |\n| "@ + crate::text::decimal(data.coclasses@.len()) + " | "@ + crate::text::decimal(data.interfaces@.len())
        + " | "@ + crate::text::decimal(data.members@.len()) + " | "@ + crate::text::decimal(data.parameters@.len()) + " | "@
        + crate::text::decimal(data.enums@.len()) + " | "@ + crate::text::decimal(data.aliases@.len()) + " | "@
        + crate::text::decimal(data.unresolved@.len()) + " |\n"@
}

/// The library's identity fields and the number of records of each kind.
pub fn library_summary(data: &AuditData) -> (s: String)
    ensures
        s@ == library_summary_text(*data),
{
    let mut s = typelib_header_string("Excel type-library summary", "The source manifest records a portable file identity and no raw user path.");
    push_str(&mut s, "| Field | Value |\n| --- | --- |\n");
    let ghost start = s@;
    let fields = library_fields();
    let ghost texts = fields@.map_values(|k: &str| k@);
    let mut i: usize = 0;
    while i < fields.len()
        invariant
            i <= fields@.len(),
            texts == fields@.map_values(|k: &str| k@),
            texts == library_field_list(),
            s@ == start + library_rows(texts.take(i as int), data.library),
        decreases fields.len() - i,
    {
        assert(texts.take(i + 1).drop_last() =~= texts.take(i as int));
        assert(texts.take(i + 1).last() == fields@[i as int]@);
        push_str(&mut s, "| ");
        push_str(&mut s, fields[i]);
        push_str(&mut s, " | `");
        push_ftext(&mut s, &data.library, fields[i]);
        push_str(&mut s, "` |\n");
        i = i + 1;
        assert(s@ =~= start + library_rows(texts.take(i as int), data.library));
    }
    assert(texts.take(i as int) =~= texts);
    push_str(&mut s, "\n| Audited coclasses | Interfaces | Members | Parameters | Enums | Aliases | Unresolved |\n| ---: | ---: | ---: | ---: | ---: | ---: | ---: |\n| ");
    push_decimal(&mut s, data.coclasses.len() as u64);
    push_str(&mut s, " | ");
    push_decimal(&mut s, data.interfaces.len() as u64);
    push_str(&mut s, " | ");
    push_decimal(&mut s, data.members.len() as u64);
    push_str(&mut s, " | ");
    push_decimal(&mut s, data.parameters.len() as u64);
    push_str(&mut s, " | ");
    push_decimal(&mut s, data.enums.len() as u64);
    push_str(&mut s, " | ");
    push_decimal(&mut s, data.aliases.len() as u64);
    push_str(&mut s, " | ");
    push_decimal(&mut s, data.unresolved.len() as u64);
    push_str(&mut s, " |\n");
    s
}

/// The number of elements of the list at `path`; 0 where there is none.
pub open spec fn list_len(r: Record, path: Seq<char>) -> nat {
    match find_field(r.fields@, path) {
        Some(f) => match f.len {
            Some(n) => n as nat,
            None => 0,
        },
        None => 0,
    }
}

fn list_len_of(r: &Record, path: &str) -> (n: usize)
    ensures
        n == list_len(*r, path@),
{
    match crate::evidence::field(r, path) {
        Some(f) => match f.len {
            Some(n) => n,
            None => 0,
        },
        None => 0,
    }
}

pub open spec fn enum_rows(enums: Seq<Record>) -> Seq<char>
    decreases enums.len(),
{
    if enums.len() == 0 {
        Seq::empty()
    } else {
        enum_rows(enums.drop_last()) + "| `"@ + ftext(enums.last(), "name"@) + "` | `"@ + ftext(enums.last(), "guid"@)
            + "` | "@ + crate::text::decimal(list_len(enums.last(), "values"@)) + " |\n"@
    }
}

pub open spec fn enum_report_text(enums: Seq<Record>) -> Seq<char> {
    typelib_header("Enum values"@, "Values are reflected from the installed library; no numeric Excel constants are hand-authored."@)
        + "| Enum | GUID | Values |\n| --- | --- | ---: |\n"@ + enum_rows(enums)
}

/// Each reflected enum with its GUID and number of values.
pub fn enum_report(data: &AuditData) -> (s: String)
    ensures
        s@ == enum_report_text(data.enums@),
{
    let mut s = typelib_header_string("Enum values", "Values are reflected from the installed library; no numeric Excel constants are hand-authored.");
    push_str(&mut s, "| Enum | GUID | Values |\n| --- | --- | ---: |\n");
    let ghost start = s@;
    let mut i: usize = 0;
    while i < data.enums.len()
        invariant
            i <= data.enums@.len(),
            s@ == start + enum_rows(data.enums@.take(i as int)),
        decreases data.enums.len() - i,
    {
        assert(data.enums@.take(i + 1).drop_last() =~= data.enums@.take(i as int));
        let e = &data.enums[i];
        push_str(&mut s, "| `");
        push_ftext(&mut s, e, "name");
        push_str(&mut s, "` | `");
        push_ftext(&mut s, e, "guid");
        push_str(&mut s, "` | ");
        let n = list_len_of(e, "values");
        push_decimal(&mut s, n as u64);
        push_str(&mut s, " |\n");
        i = i + 1;
        assert(s@ =~= start + enum_rows(data.enums@.take(i as int)));
    }
    assert(data.enums@.take(i as int) =~= data.enums@);
    s
}

/// The invoke kind a documented member is expected to have: a property is
/// read with `INVOKE_PROPERTYGET`, a method called with `INVOKE_FUNC`.
pub open spec fn expected_invoke(documentation: Record) -> Option<Seq<char>> {
    match fstr(documentation, "kind"@) {
        Some(k) => if k == "property"@ {
            Some("INVOKE_PROPERTYGET"@)
        } else if k == "method"@ {
            Some("INVOKE_FUNC"@)
        } else {
            None
        },
        None => None,
    }
}

/// The first member of `candidate` with the given invoke kind.
pub open spec fn first_with_invoke(members: Seq<Record>, candidate: Seq<char>, invoke: Seq<char>) -> Option<Record>
    decreases members.len(),
{
    if members.len() == 0 {
        None
    } else if fstr(members[0], "canonical_documentation_id"@) == Some(candidate) && ftext(members[0], "invoke_kind"@) == invoke {
        Some(members[0])
    } else {
        first_with_invoke(members.drop_first(), candidate, invoke)
    }
}

/// The typelib member that the documentation record is compared with: the
/// first of the candidate's members of the expected invoke kind, or its
/// first member where the documentation names no kind.
pub open spec fn documented_member(documentation: Record, members: Seq<Record>, candidate: Seq<char>) -> Option<Record> {
    match expected_invoke(documentation) {
        Some(invoke) => first_with_invoke(members, candidate, invoke),
        None => first_with(members, "canonical_documentation_id"@, candidate),
    }
}

fn first_with_invoke_of<'a>(members: &'a Vec<Record>, candidate: &str, invoke: &str) -> (r: Option<&'a Record>)
    ensures
        match r {
            Some(x) => first_with_invoke(members@, candidate@, invoke@) == Some(*x),
            None => first_with_invoke(members@, candidate@, invoke@) is None,
        },
{
    let mut i: usize = 0;
    assert(members@.skip(0) =~= members@);
    while i < members.len()
        invariant
            i <= members@.len(),
            first_with_invoke(members@, candidate@, invoke@) == first_with_invoke(members@.skip(i as int), candidate@, invoke@),
        decreases members.len() - i,
    {
        let ghost rest = members@.skip(i as int);
        assert(rest[0] == members@[i as int]);
        let same = match fstr_of(&members[i], "canonical_documentation_id") {
            Some(t) => str_eq(t, candidate),
            None => false,
        };
        if same {
            let kind = crate::runtime_report::ftext_string(&members[i], "invoke_kind");
            if str_eq(kind.as_str(), invoke) {
                return Some(&members[i]);
            }
        }
        assert(rest.drop_first() =~= members@.skip(i + 1));
        i = i + 1;
    }
    None
}

fn documented_member_of<'a>(documentation: &Record, members: &'a Vec<Record>, candidate: &str) -> (r: Option<&'a Record>)
    ensures
        match r {
            Some(x) => documented_member(*documentation, members@, candidate@) == Some(*x),
            None => documented_member(*documentation, members@, candidate@) is None,
        },
{
    let kind = fstr_of(documentation, "kind");
    let expected: Option<&str> = match kind {
        Some(k) => if str_eq(k, "property") {
            Some("INVOKE_PROPERTYGET")
        } else if str_eq(k, "method") {
            Some("INVOKE_FUNC")
        } else {
            None
        },
        None => None,
    };
    match expected {
        Some(invoke) => first_with_invoke_of(members, candidate, invoke),
        None => first_with_of(members, "canonical_documentation_id", candidate),
    }
}

/// The typelib's parameter count of a member: its unsigned
/// `parameter_count`, 0 where there is none.
pub open spec fn typelib_parameter_count(member: Record) -> usize {
    match find_field(member.fields@, "parameter_count"@) {
        Some(f) => match f.uint {
            Some(u) => u as usize,
            None => 0usize,
        },
        None => 0usize,
    }
}

/// One candidate's comparison of documentation and typelib.
pub open spec fn difference_row(candidate: Seq<char>, documentation: Seq<Record>, members: Seq<Record>) -> Seq<char> {
    match first_with(documentation, "id"@, candidate) {
        None => "| `"@ + candidate + "` | Documentation record missing | Neither evidence layer supplied this target. |\n"@,
        Some(d) => match documented_member(d, members, candidate) {
            None => "| `"@ + candidate + "` | Missing compatible typelib member | No selected interface member matched; aliases or version differences remain unresolved. |\n"@,
            Some(t) => "| `"@ + candidate + "` | "@ + (if list_len(d, "parameters"@) == typelib_parameter_count(t) as nat {
                "Signature shape agrees"@
            } else {
                "Parameter count differs"@
            }) + " | documentation "@ + ftext(d, "kind"@) + " with "@ + crate::text::decimal(list_len(d, "parameters"@))
                + " parameter(s); typelib "@ + ftext(t, "invoke_kind"@) + " with "@ + ftext(t, "parameter_count"@)
                + " parameter(s), DISPID "@ + ftext(t, "dispid"@) + ". |\n"@,
        },
    }
}

fn typelib_parameter_count_of(member: &Record) -> (n: usize)
    ensures
        n == typelib_parameter_count(*member),
{
    match crate::evidence::field(member, "parameter_count") {
        Some(f) => match f.uint {
            Some(u) => u as usize,
            None => 0,
        },
        None => 0,
    }
}

#[verifier::rlimit(40)]
fn push_difference_row(s: &mut String, candidate: &str, documentation: &Vec<Record>, members: &Vec<Record>)
    ensures
        final(s)@ == old(s)@ + difference_row(candidate@, documentation@, members@),
{
    let ghost start = s@;
    push_str(s, "| `");
    push_str(s, candidate);
    match first_with_of(documentation, "id", candidate) {
        None => push_str(s, "` | Documentation record missing | Neither evidence layer supplied this target. |\n"),
        Some(d) => match documented_member_of(d, members, candidate) {
            None => push_str(s, "` | Missing compatible typelib member | No selected interface member matched; aliases or version differences remain unresolved. |\n"),
            Some(t) => {
                let documented = list_len_of(d, "parameters");
                let declared = typelib_parameter_count_of(t);
                push_str(s, "` | ");
                if documented == declared {
                    push_str(s, "Signature shape agrees");
                } else {
                    push_str(s, "Parameter count differs");
                }
                push_str(s, " | documentation ");
                push_ftext(s, d, "kind");
                push_str(s, " with ");
                push_decimal(s, documented as u64);
                push_str(s, " parameter(s); typelib ");
                push_ftext(s, t, "invoke_kind");
                push_str(s, " with ");
                push_ftext(s, t, "parameter_count");
                push_str(s, " parameter(s), DISPID ");
                push_ftext(s, t, "dispid");
                push_str(s, ". |\n");
            },
        },
    }
    assert(s@ =~= start + difference_row(candidate@, documentation@, members@));
}

pub open spec fn difference_rows(candidates: Seq<Seq<char>>, documentation: Seq<Record>, members: Seq<Record>) -> Seq<char>
    decreases candidates.len(),
{
    if candidates.len() == 0 {
        Seq::empty()
    } else {
        difference_rows(candidates.drop_last(), documentation, members) + difference_row(candidates.last(), documentation, members)
    }
}

pub open spec fn documentation_differences_text(documentation: Seq<Record>, members: Seq<Record>) -> Seq<char> {
    typelib_header("Documentation and typelib differences"@, "Differences are reported without changing the documentation-derived evidence layer."@)
        + "| Canonical ID | Result | Detail |\n| --- | --- | --- |\n"@ + difference_rows(candidate_list(), documentation, members)
}

/// For each candidate, whether its documentation record and its typelib
/// member agree in shape.
pub fn documentation_differences(data: &AuditData) -> (s: String)
    ensures
        s@ == documentation_differences_text(data.documentation@, data.members@),
{
    let mut s = typelib_header_string("Documentation and typelib differences", "Differences are reported without changing the documentation-derived evidence layer.");
    push_str(&mut s, "| Canonical ID | Result | Detail |\n| --- | --- | --- |\n");
    let ghost start = s@;
    let candidates = candidate_ids();
    let ghost texts = candidates@.map_values(|k: &str| k@);
    let mut i: usize = 0;
    while i < candidates.len()
        invariant
            i <= candidates@.len(),
            texts == candidates@.map_values(|k: &str| k@),
            texts == candidate_list(),
            s@ == start + difference_rows(texts.take(i as int), data.documentation@, data.members@),
        decreases candidates.len() - i,
    {
        assert(texts.take(i + 1).drop_last() =~= texts.take(i as int));
        assert(texts.take(i + 1).last() == candidates@[i as int]@);
        push_difference_row(&mut s, candidates[i], &data.documentation, &data.members);
        i = i + 1;
        assert(s@ =~= start + difference_rows(texts.take(i as int), data.documentation@, data.members@));
    }
    assert(texts.take(i as int) =~= texts);
    s
}

pub open spec fn unresolved_rows(unresolved: Seq<Record>) -> Seq<char>
    decreases unresolved.len(),
{
    if unresolved.len() == 0 {
        Seq::empty()
    } else {
        unresolved_rows(unresolved.drop_last()) + "| "@ + ftext(unresolved.last(), "category"@) + " | `"@
            + ftext(unresolved.last(), "target"@) + "` | "@ + ftext(unresolved.last(), "detail"@) + " |\n"@
    }
}

pub open spec fn unresolved_report_text(unresolved: Seq<Record>) -> Seq<char> {
    typelib_header("Unresolved typelib targets"@, "Unresolved entries are explicit audit follow-ups, not inferred ABI or runtime facts."@)
        + "| Category | Target | Detail |\n| --- | --- | --- |\n"@ + if unresolved.len() == 0 {
        "| None | -- | No unresolved target was emitted. |\n"@
    } else {
        unresolved_rows(unresolved)
    }
}

/// The unresolved audit targets in their recorded order.
pub fn unresolved_report(data: &AuditData) -> (s: String)
    ensures
        s@ == unresolved_report_text(data.unresolved@),
{
    let mut s = typelib_header_string("Unresolved typelib targets", "Unresolved entries are explicit audit follow-ups, not inferred ABI or runtime facts.");
    push_str(&mut s, "| Category | Target | Detail |\n| --- | --- | --- |\n");
    if data.unresolved.len() == 0 {
        push_str(&mut s, "| None | -- | No unresolved target was emitted. |\n");
        return s;
    }
    let ghost start = s@;
    let mut i: usize = 0;
    while i < data.unresolved.len()
        invariant
            i <= data.unresolved@.len(),
            s@ == start + unresolved_rows(data.unresolved@.take(i as int)),
        decreases data.unresolved.len() - i,
    {
        assert(data.unresolved@.take(i + 1).drop_last() =~= data.unresolved@.take(i as int));
        let r = &data.unresolved[i];
        push_str(&mut s, "| ");
        push_ftext(&mut s, r, "category");
        push_str(&mut s, " | `");
        push_ftext(&mut s, r, "target");
        push_str(&mut s, "` | ");
        push_ftext(&mut s, r, "detail");
        push_str(&mut s, " |\n");
        i = i + 1;
        assert(s@ =~= start + unresolved_rows(data.unresolved@.take(i as int)));
    }
    assert(data.unresolved@.take(i as int) =~= data.unresolved@);
    s
}

/// The generated type-library reports, by file name in name order.
pub fn typelib_reports(data: &AuditData) -> (v: Vec<(&'static str, String)>)
    ensures
        v@.len() == 9,
        v@[0].0@ == "architectural-spine.md"@,
        v@[0].1@ == spine_report_text(data.interfaces@, data.members@, data.coclasses@),
        v@[1].0@ == "candidate-0.1-signatures.md"@,
        v@[1].1@ == candidate_report_text(data.members@),
        v@[2].0@ == "collections.md"@,
        v@[2].1@ == collections_report_text(data.members@),
        v@[3].0@ == "documentation-differences.md"@,
        v@[3].1@ == documentation_differences_text(data.documentation@, data.members@),
        v@[4].0@ == "enum-values.md"@,
        v@[4].1@ == enum_report_text(data.enums@),
        v@[5].0@ == "library-summary.md"@,
        v@[5].1@ == library_summary_text(*data),
        v@[6].0@ == "optional-arguments.md"@,
        v@[6].1@ == optional_arguments_report_text(data.parameters@, data.members@),
        v@[7].0@ == "range-contracts.md"@,
        v@[7].1@ == range_report_text(data.members@),
        v@[8].0@ == "unresolved.md"@,
        v@[8].1@ == unresolved_report_text(data.unresolved@),
{
    let mut v: Vec<(&'static str, String)> = Vec::new();
    v.push(("architectural-spine.md", spine_report(data)));
    v.push(("candidate-0.1-signatures.md", candidate_report(data)));
    v.push(("collections.md", collections_report(data)));
    v.push(("documentation-differences.md", documentation_differences(data)));
    v.push(("enum-values.md", enum_report(data)));
    v.push(("library-summary.md", library_summary(data)));
    v.push(("optional-arguments.md", optional_arguments_report(data)));
    v.push(("range-contracts.md", range_report(data)));
    v.push(("unresolved.md", unresolved_report(data)));
    v
}

pub open spec fn source_manifest_text(library: Record, file: FileEvidence, input: AuditInput) -> Seq<char> {
    "schema_version = 1\naudit_tool_version = 1\ninput_target_list = \"generated/analysis/typelib-audit-targets.md\"\nlibrary_guid = \""@
        + ftext(library, "guid"@) + "\"\nmajor_version = "@ + ftext(library, "major_version"@) + "\nminor_version = "@
        + ftext(library, "minor_version"@) + "\nlcid = "@ + ftext(library, "lcid"@) + "\nsyskind = \""@
        + ftext(library, "syskind"@) + "\"\nregistration_source = \""@ + file.registration_category@
        + "\"\nloaded_file_basename = \""@ + file.basename@ + "\"\nloaded_file_sha256 = \""@ + file.sha256@
        + "\"\nexcel_file_version = \""@ + toml_escaped(input.excel_file_version@) + "\"\nwindows_version = \""@
        + toml_escaped(input.windows_version@) + "\"\noffice_bitness = \""@ + toml_escaped(input.office_bitness@)
        + "\"\nwindows_crate_version = \"0.62.2\"\nwindows_core_version = \"0.62.2\"\ninspection_date = \"2026-07-21\"\n\n[audit_targets]\narchitectural_spine = [\"Excel.Application\", \"Excel.Workbooks\", \"Excel.Workbook\", \"Excel.Worksheets\", \"Excel.Worksheet\", \"Excel.Range\"]\ncollection_families = [\"Excel.Sheets\", \"Excel.Windows\", \"Excel.Names\", \"Excel.ListObjects\", \"Excel.ChartObjects\", \"Excel.Shapes\"]\ncandidate_0_1_count = 50\n"@
}

/// The source manifest of an audit: the library identity, the loaded file's
/// portable identity and the described installation, TOML-escaped.
pub fn source_manifest(library: &Record, file: &FileEvidence, input: &AuditInput) -> (s: String)
    ensures
        s@ == source_manifest_text(*library, *file, *input),
{
    let mut s = String::new();
    push_str(&mut s, "schema_version = 1\naudit_tool_version = 1\ninput_target_list = \"generated/analysis/typelib-audit-targets.md\"\nlibrary_guid = \"");
    push_ftext(&mut s, library, "guid");
    push_str(&mut s, "\"\nmajor_version = ");
    push_ftext(&mut s, library, "major_version");
    push_str(&mut s, "\nminor_version = ");
    push_ftext(&mut s, library, "minor_version");
    push_str(&mut s, "\nlcid = ");
    push_ftext(&mut s, library, "lcid");
    push_str(&mut s, "\nsyskind = \"");
    push_ftext(&mut s, library, "syskind");
    push_str(&mut s, "\"\nregistration_source = \"");
    push_str(&mut s, file.registration_category.as_str());
    push_str(&mut s, "\"\nloaded_file_basename = \"");
    push_str(&mut s, file.basename.as_str());
    push_str(&mut s, "\"\nloaded_file_sha256 = \"");
    push_str(&mut s, file.sha256.as_str());
    push_str(&mut s, "\"\nexcel_file_version = \"");
    let t = escape_toml(input.excel_file_version.as_str());
    push_str(&mut s, t.as_str());
    push_str(&mut s, "\"\nwindows_version = \"");
    let t = escape_toml(input.windows_version.as_str());
    push_str(&mut s, t.as_str());
    push_str(&mut s, "\"\noffice_bitness = \"");
    let t = escape_toml(input.office_bitness.as_str());
    push_str(&mut s, t.as_str());
    push_str(&mut s, "\"\nwindows_crate_version = \"0.62.2\"\nwindows_core_version = \"0.62.2\"\ninspection_date = \"2026-07-21\"\n\n[audit_targets]\narchitectural_spine = [\"Excel.Application\", \"Excel.Workbooks\", \"Excel.Workbook\", \"Excel.Worksheets\", \"Excel.Worksheet\", \"Excel.Range\"]\ncollection_families = [\"Excel.Sheets\", \"Excel.Windows\", \"Excel.Names\", \"Excel.ListObjects\", \"Excel.ChartObjects\", \"Excel.Shapes\"]\ncandidate_0_1_count = 50\n");
    s
}

/// What `serde_json` makes of a JSON text re-rendered with two-space
/// indentation; `None` where the text is not JSON.
pub uninterp spec fn pretty_json(text: Seq<char>) -> Option<Seq<char>>;

/// Parses `text` with `serde_json::from_str` into a `serde_json::Value` and
/// renders it with `serde_json::to_string_pretty`. The contract names the
/// result and says only that it depends on the text alone.
#[verifier::external_body]
fn pretty_json_text(text: &str) -> (r: Option<String>)
    ensures
        match r {
            Some(t) => pretty_json(text@) == Some(t@),
            None => pretty_json(text@) is None,
        },
{
    match serde_json::from_str::<serde_json::Value>(text) {
        Ok(value) => serde_json::to_string_pretty(&value).ok(),
        Err(_) => None,
    }
}

/// `v` is the artifact set of the audit: the nine reports, the source
/// manifest, the record sets as JSON Lines and the library record
/// pretty-printed with a final newline, by path in path order.
pub open spec fn is_typelib_artifacts(data: AuditData, v: Seq<(String, String)>) -> bool {
    &&& v.len() == 18
    &&& v[0].0@ == "generated/typelib/architectural-spine.md"@ && v[0].1@ == spine_report_text(data.interfaces@, data.members@, data.coclasses@)
    &&& v[1].0@ == "generated/typelib/candidate-0.1-signatures.md"@ && v[1].1@ == candidate_report_text(data.members@)
    &&& v[2].0@ == "generated/typelib/collections.md"@ && v[2].1@ == collections_report_text(data.members@)
    &&& v[3].0@ == "generated/typelib/documentation-differences.md"@ && v[3].1@ == documentation_differences_text(data.documentation@, data.members@)
    &&& v[4].0@ == "generated/typelib/enum-values.md"@ && v[4].1@ == enum_report_text(data.enums@)
    &&& v[5].0@ == "generated/typelib/library-summary.md"@ && v[5].1@ == library_summary_text(data)
    &&& v[6].0@ == "generated/typelib/optional-arguments.md"@ && v[6].1@ == optional_arguments_report_text(data.parameters@, data.members@)
    &&& v[7].0@ == "generated/typelib/range-contracts.md"@ && v[7].1@ == range_report_text(data.members@)
    &&& v[8].0@ == "generated/typelib/unresolved.md"@ && v[8].1@ == unresolved_report_text(data.unresolved@)
    &&& v[9].0@ == "typelib/SOURCE_MANIFEST.toml"@ && v[9].1@ == data.source_manifest@
    &&& v[10].0@ == "typelib/aliases.jsonl"@ && v[10].1@ == jsonl_text(data.aliases@)
    &&& v[11].0@ == "typelib/coclasses.jsonl"@ && v[11].1@ == jsonl_text(data.coclasses@)
    &&& v[12].0@ == "typelib/enums.jsonl"@ && v[12].1@ == jsonl_text(data.enums@)
    &&& v[13].0@ == "typelib/interfaces.jsonl"@ && v[13].1@ == jsonl_text(data.interfaces@)
    &&& v[14].0@ == "typelib/library.json"@ && v[14].1@.len() > 0 && pretty_json(data.library.json@) == Some(v[14].1@.drop_last()) && v[14].1@.last() == '\n'
    &&& v[15].0@ == "typelib/members.jsonl"@ && v[15].1@ == jsonl_text(data.members@)
    &&& v[16].0@ == "typelib/parameters.jsonl"@ && v[16].1@ == jsonl_text(data.parameters@)
    &&& v[17].0@ == "typelib/unresolved.jsonl"@ && v[17].1@ == jsonl_text(data.unresolved@)
}

/// The artifact set of one audit, by path in path order: the nine reports,
/// the source manifest, the record sets as JSON Lines in their order, and
/// the library record pretty-printed. Refused where the library record is
/// not JSON.
pub fn typelib_artifacts(data: &AuditData) -> (r: Result<Vec<(String, String)>, String>)
    ensures
        pretty_json(data.library.json@) is None <==> r is Err,
        r matches Ok(v) ==> is_typelib_artifacts(*data, v@),
{
    let pretty = match pretty_json_text(data.library.json.as_str()) {
        Some(t) => t,
        None => {
            return Err(String::from_str("cannot encode JSON: the library record is not JSON"));
        },
    };
    let ghost pretty_text = pretty@;
    proof {
        reveal_strlit("\n");
    }
    let mut library = pretty;
    push_str(&mut library, "\n");
    assert(library@.drop_last() =~= pretty_text);
    let mut v: Vec<(String, String)> = Vec::new();
    v.push((String::from_str("generated/typelib/architectural-spine.md"), spine_report(data)));
    v.push((String::from_str("generated/typelib/candidate-0.1-signatures.md"), candidate_report(data)));
    v.push((String::from_str("generated/typelib/collections.md"), collections_report(data)));
    v.push((String::from_str("generated/typelib/documentation-differences.md"), documentation_differences(data)));
    v.push((String::from_str("generated/typelib/enum-values.md"), enum_report(data)));
    v.push((String::from_str("generated/typelib/library-summary.md"), library_summary(data)));
    v.push((String::from_str("generated/typelib/optional-arguments.md"), optional_arguments_report(data)));
    v.push((String::from_str("generated/typelib/range-contracts.md"), range_report(data)));
    v.push((String::from_str("generated/typelib/unresolved.md"), unresolved_report(data)));
    v.push((String::from_str("typelib/SOURCE_MANIFEST.toml"), string_of(&chars_of(data.source_manifest.as_str()))));
    v.push((String::from_str("typelib/aliases.jsonl"), frame_lines(&data.aliases)));
    v.push((String::from_str("typelib/coclasses.jsonl"), frame_lines(&data.coclasses)));
    v.push((String::from_str("typelib/enums.jsonl"), frame_lines(&data.enums)));
    v.push((String::from_str("typelib/interfaces.jsonl"), frame_lines(&data.interfaces)));
    v.push((String::from_str("typelib/library.json"), library));
    v.push((String::from_str("typelib/members.jsonl"), frame_lines(&data.members)));
    v.push((String::from_str("typelib/parameters.jsonl"), frame_lines(&data.parameters)));
    v.push((String::from_str("typelib/unresolved.jsonl"), frame_lines(&data.unresolved)));
    assert(is_typelib_artifacts(*data, v@));
    Ok(v)
}

fn has_match_of(records: &Vec<Record>, path: &str, key: &str) -> (b: bool)
    ensures
        b == has_match(records@, path@, key@),
{
    let mut i: usize = 0;
    while i < records.len()
        invariant
            i <= records@.len(),
            !has_match(records@.take(i as int), path@, key@),
        decreases records.len() - i,
    {
        let hit = match fstr_of(&records[i], path) {
            Some(t) => str_eq(t, key),
            None => false,
        };
        if hit {
            return true;
        }
        proof {
            let next = records@.take(i + 1);
            if has_match(next, path@, key@) {
                let k = choose|k: int| 0 <= k < next.len() && #[trigger] fstr(next[k], path@) == Some(key@);
                if k < i {
                    assert(records@.take(i as int)[k] == next[k]);
                }
            }
        }
        i = i + 1;
    }
    proof {
        if has_match(records@, path@, key@) {
            let k = choose|k: int| 0 <= k < records@.len() && #[trigger] fstr(records@[k], path@) == Some(key@);
            assert(records@.take(i as int)[k] == records@[k]);
        }
    }
    false
}

/// The candidates that no audited member matched, in candidate order, each
/// with whether a documentation record names it.
pub open spec fn missing_candidate_list(
    candidates: Seq<Seq<char>>,
    members: Seq<Record>,
    documentation: Seq<Record>,
) -> Seq<(Seq<char>, bool)>
    decreases candidates.len(),
{
    if candidates.len() == 0 {
        Seq::empty()
    } else {
        let c = candidates.last();
        missing_candidate_list(candidates.drop_last(), members, documentation) + if has_match(
            members,
            "canonical_documentation_id"@,
            c,
        ) {
            Seq::empty()
        } else {
            seq![(c, first_with(documentation, "id"@, c) is Some)]
        }
    }
}

/// The candidates missing from the installed type library, to be recorded
/// as unresolved targets.
pub fn missing_candidates(members: &Vec<Record>, documentation: &Vec<Record>) -> (v: Vec<(&'static str, bool)>)
    ensures
        v@.map_values(|e: (&str, bool)| (e.0@, e.1)) == missing_candidate_list(
            candidate_list(),
            members@,
            documentation@,
        ),
{
    let candidates = candidate_ids();
    let ghost texts = candidates@.map_values(|k: &str| k@);
    let mut v: Vec<(&'static str, bool)> = Vec::new();
    let mut i: usize = 0;
    while i < candidates.len()
        invariant
            i <= candidates@.len(),
            texts == candidates@.map_values(|k: &str| k@),
            texts == candidate_list(),
            v@.map_values(|e: (&str, bool)| (e.0@, e.1)) == missing_candidate_list(
                texts.take(i as int),
                members@,
                documentation@,
            ),
        decreases candidates.len() - i,
    {
        assert(texts.take(i + 1).drop_last() =~= texts.take(i as int));
        assert(texts.take(i + 1).last() == candidates@[i as int]@);
        if !has_match_of(members, "canonical_documentation_id", candidates[i]) {
            let documented = first_with_of(documentation, "id", candidates[i]).is_some();
            v.push((candidates[i], documented));
        }
        i = i + 1;
        assert(v@.map_values(|e: (&str, bool)| (e.0@, e.1)) =~= missing_candidate_list(
            texts.take(i as int),
            members@,
            documentation@,
        ));
    }
    assert(texts.take(i as int) =~= texts);
    v
}

/// The artifact set is determined by the audit data: two artifact sets of
/// the same data agree path by path and text by text.
pub proof fn lemma_typelib_artifacts_deterministic(data: AuditData, a: Seq<(String, String)>, b: Seq<(String, String)>)
    requires
        is_typelib_artifacts(data, a),
        is_typelib_artifacts(data, b),
    ensures
        a.len() == b.len(),
        forall|k: int| 0 <= k < a.len() ==> (#[trigger] a[k]).0@ == b[k].0@ && a[k].1@ == b[k].1@,
{
    let x = a[14].1@;
    let y = b[14].1@;
    assert(x =~= x.drop_last().push(x.last()));
    assert(y =~= y.drop_last().push(y.last()));
}

/// The audit data with every record set stably ordered by identifier; the
/// library record, the documentation and the manifest are kept.
pub fn sort_audit_data(data: AuditData) -> (r: AuditData)
    ensures
        r.library == data.library,
        r.documentation == data.documentation,
        r.source_manifest == data.source_manifest,
        crate::evidence::stably_sorted(data.coclasses@, r.coclasses@),
        crate::evidence::stably_sorted(data.interfaces@, r.interfaces@),
        crate::evidence::stably_sorted(data.members@, r.members@),
        crate::evidence::stably_sorted(data.parameters@, r.parameters@),
        crate::evidence::stably_sorted(data.enums@, r.enums@),
        crate::evidence::stably_sorted(data.aliases@, r.aliases@),
        crate::evidence::stably_sorted(data.unresolved@, r.unresolved@),
{
    let AuditData {
        library,
        coclasses,
        interfaces,
        members,
        parameters,
        enums,
        aliases,
        unresolved,
        documentation,
        source_manifest,
    } = data;
    AuditData {
        library,
        coclasses: crate::evidence::sort_records(coclasses),
        interfaces: crate::evidence::sort_records(interfaces),
        members: crate::evidence::sort_records(members),
        parameters: crate::evidence::sort_records(parameters),
        enums: crate::evidence::sort_records(enums),
        aliases: crate::evidence::sort_records(aliases),
        unresolved: crate::evidence::sort_records(unresolved),
        documentation,
        source_manifest,
    }
}

} // verus!
