//! Runtime evidence records: their order by identifier, the merge of a
//! fresh capture into the committed one, JSON Lines framing and the summary
//! of a live run.

use vstd::prelude::*;

use crate::parity::LiveSummary;
use crate::text::{chars_of, push_char, push_str, str_eq};
use crate::utf16::lemma_char_is_scalar;

verus! {

/// `a` sorts strictly before `b`: the order of Rust's `String` (its UTF-8
/// bytes compare as its code points do).
pub open spec fn lex_lt(a: Seq<char>, b: Seq<char>) -> bool
    decreases a.len(),
{
    if a.len() == 0 {
        b.len() > 0
    } else if b.len() == 0 {
        false
    } else if a[0] != b[0] {
        (a[0] as u32) < (b[0] as u32)
    } else {
        lex_lt(a.drop_first(), b.drop_first())
    }
}

pub proof fn lemma_lex_irreflexive(a: Seq<char>)
    ensures
        !lex_lt(a, a),
    decreases a.len(),
{
    if a.len() > 0 {
        lemma_lex_irreflexive(a.drop_first());
    }
}

pub proof fn lemma_lex_transitive(a: Seq<char>, b: Seq<char>, c: Seq<char>)
    requires
        lex_lt(a, b),
        lex_lt(b, c),
    ensures
        lex_lt(a, c),
    decreases a.len(),
{
    if a.len() > 0 && b.len() > 0 && c.len() > 0 {
        if a[0] == b[0] && b[0] == c[0] {
            lemma_lex_transitive(a.drop_first(), b.drop_first(), c.drop_first());
        }
    }
}

/// Two different texts are ordered one way or the other.
pub proof fn lemma_lex_total(a: Seq<char>, b: Seq<char>)
    ensures
        a == b || lex_lt(a, b) || lex_lt(b, a),
    decreases a.len(),
{
    if a.len() > 0 && b.len() > 0 {
        if a[0] == b[0] {
            lemma_lex_total(a.drop_first(), b.drop_first());
            if a.drop_first() == b.drop_first() {
                assert(a =~= seq![a[0]] + a.drop_first());
                assert(b =~= seq![b[0]] + b.drop_first());
            }
        } else {
            lemma_char_is_scalar(a[0]);
            lemma_char_is_scalar(b[0]);
        }
    } else if a.len() == 0 && b.len() == 0 {
        assert(a =~= b);
    }
}

pub proof fn lemma_lex_asymmetric(a: Seq<char>, b: Seq<char>)
    requires
        lex_lt(a, b),
    ensures
        !lex_lt(b, a),
{
    if lex_lt(b, a) {
        lemma_lex_transitive(a, b, a);
        lemma_lex_irreflexive(a);
    }
}

fn chars_less(a: &Vec<char>, b: &Vec<char>) -> (r: bool)
    ensures
        r == lex_lt(a@, b@),
{
    let mut i: usize = 0;
    assert(a@.skip(0) =~= a@);
    assert(b@.skip(0) =~= b@);
    while i < a.len() && i < b.len()
        invariant
            i <= a@.len(),
            i <= b@.len(),
            lex_lt(a@, b@) == lex_lt(a@.skip(i as int), b@.skip(i as int)),
        decreases a.len() - i,
    {
        let x = a[i];
        let y = b[i];
        assert(a@.skip(i as int)[0] == x);
        assert(b@.skip(i as int)[0] == y);
        if x != y {
            return (x as u32) < (y as u32);
        }
        assert(a@.skip(i as int).drop_first() =~= a@.skip(i + 1));
        assert(b@.skip(i as int).drop_first() =~= b@.skip(i + 1));
        i = i + 1;
    }
    assert(i == a@.len() ==> a@.skip(i as int).len() == 0);
    assert(i == b@.len() ==> b@.skip(i as int).len() == 0);
    i == a.len() && i < b.len()
}

/// Whether `a` sorts strictly before `b`.
pub fn text_less(a: &str, b: &str) -> (r: bool)
    ensures
        r == lex_lt(a@, b@),
{
    let x = chars_of(a);
    let y = chars_of(b);
    chars_less(&x, &y)
}

/// The texts of a list of strings.
pub open spec fn texts_of(v: Seq<String>) -> Seq<Seq<char>> {
    v.map_values(|y: String| y@)
}

/// The texts strictly increase in string order.
pub open spec fn strictly_ordered(ms: Seq<Seq<char>>) -> bool {
    forall|a: int, b: int|
        0 <= a < b < ms.len() ==> crate::evidence::lex_lt(#[trigger] ms[a], #[trigger] ms[b])
}

/// Adds `m` to an ordered list of distinct texts, keeping it ordered.
pub fn insert_distinct(modes: &mut Vec<String>, m: &str)
    requires
        strictly_ordered(texts_of(old(modes)@)),
    ensures
        strictly_ordered(texts_of(final(modes)@)),
        texts_of(final(modes)@).contains(m@),
        forall|x: Seq<char>|
            #[trigger] texts_of(old(modes)@).contains(x) ==> texts_of(final(modes)@).contains(x),
        forall|x: Seq<char>|
            #[trigger] texts_of(final(modes)@).contains(x) ==> texts_of(old(modes)@).contains(x) || x == m@,
{
    let ghost before = texts_of(modes@);
    let mut j: usize = 0;
    while j < modes.len()
        invariant
            j <= modes@.len(),
            modes@ == old(modes)@,
            before == texts_of(modes@),
            strictly_ordered(before),
            forall|t: int| 0 <= t < j ==> before[t] != m@,
        decreases modes.len() - j,
    {
        if str_eq(modes[j].as_str(), m) {
            assert(before[j as int] == m@);
            return;
        }
        j = j + 1;
    }
    let mut p: usize = modes.len();
    while p > 0 && text_less(m, modes[p - 1].as_str())
        invariant
            p <= modes@.len(),
            before == texts_of(modes@),
            forall|t: int| p <= t < modes@.len() ==> crate::evidence::lex_lt(m@, #[trigger] before[t]),
        decreases p,
    {
        p = p - 1;
    }
    proof {
        if p > 0 {
            assert(!crate::evidence::lex_lt(m@, before[p - 1]));
            crate::evidence::lemma_lex_total(before[p - 1], m@);
        }
    }
    modes.insert(p, crate::text::string_of(&crate::text::chars_of(m)));
    proof {
        let after = texts_of(modes@);
        assert(after =~= before.insert(p as int, m@));
        assert forall|a: int, b: int| 0 <= a < b < after.len() implies crate::evidence::lex_lt(
            #[trigger] after[a],
            #[trigger] after[b],
        ) by {
            if b == p {
                assert(after[a] == before[a]);
                if a < p - 1 {
                    assert(crate::evidence::lex_lt(before[a], before[p - 1]));
                    crate::evidence::lemma_lex_transitive(before[a], before[p - 1], m@);
                }
            } else if a == p {
                assert(after[b] == before[b - 1]);
            } else if a < p && b > p {
                assert(after[a] == before[a]);
                assert(after[b] == before[b - 1]);
                if a < p - 1 {
                    assert(crate::evidence::lex_lt(before[a], before[p - 1]));
                    crate::evidence::lemma_lex_transitive(before[a], before[p - 1], m@);
                }
                crate::evidence::lemma_lex_transitive(before[a], m@, before[b - 1]);
            } else if b < p {
                assert(after[a] == before[a]);
                assert(after[b] == before[b]);
            } else {
                assert(after[a] == before[a - 1]);
                assert(after[b] == before[b - 1]);
            }
        }
        assert(after[p as int] == m@);
        assert forall|x: Seq<char>| before.contains(x) implies after.contains(x) by {
            let k = choose|k: int| 0 <= k < before.len() && before[k] == x;
            if k < p {
                assert(after[k] == x);
            } else {
                assert(after[k + 1] == x);
            }
        }
        assert forall|x: Seq<char>| after.contains(x) implies before.contains(x) || x == m@ by {
            let k = choose|k: int| 0 <= k < after.len() && after[k] == x;
            if k < p {
                assert(before[k] == x);
            } else if k > p {
                assert(before[k - 1] == x);
            }
        }
    }
}

/// The JSON kind of a field's value.
#[derive(Debug, Clone, Copy, PartialEq, Eq, Structural)]
pub enum FieldKind {
    Null,
    Bool,
    Number,
    Text,
    List,
    Object,
}

/// One value inside a record, found by its path: object members are
/// reached by `/` and their key, list elements by `#` and their index.
#[derive(Debug, Clone, PartialEq, Eq)]
pub struct Field {
    pub path: String,
    pub kind: FieldKind,
    /// The value as the reports render it: a string's own text, `--` for
    /// null, else the compact JSON text.
    pub text: String,
    /// The compact JSON text.
    pub json: String,
    /// The value as an `i64` or `u64`, where it is an integer that fits.
    pub int: Option<i64>,
    pub uint: Option<u64>,
    /// The boolean, where it is one.
    pub boolean: Option<bool>,
    /// The number of elements, where it is a list.
    pub len: Option<usize>,
}

/// One evidence record: its `id` and `status` fields as the reports render
/// them (`--` where absent), the record's compact JSON text, and its values.
#[derive(Debug, PartialEq, Eq)]
pub struct Record {
    pub id: String,
    pub status: String,
    pub json: String,
    pub fields: Vec<Field>,
}

impl Record {
    /// A record with no values to look up.
    pub fn new(id: String, status: String, json: String) -> (r: Self)
        ensures
            r.id == id,
            r.status == status,
            r.json == json,
            r.fields@ == Seq::<Field>::empty(),
    {
        Record { id, status, json, fields: Vec::new() }
    }

    pub fn with_fields(id: String, status: String, json: String, fields: Vec<Field>) -> (r: Self)
        ensures
            r.id == id,
            r.status == status,
            r.json == json,
            r.fields == fields,
    {
        Record { id, status, json, fields }
    }
}

/// The first field of `fields` at `path`.
pub open spec fn find_field(fields: Seq<Field>, path: Seq<char>) -> Option<Field>
    decreases fields.len(),
{
    if fields.len() == 0 {
        None
    } else if fields[0].path@ == path {
        Some(fields[0])
    } else {
        find_field(fields.drop_first(), path)
    }
}

/// The field of `record` at `path`.
pub fn field<'a>(record: &'a Record, path: &str) -> (f: Option<&'a Field>)
    ensures
        match f {
            Some(x) => find_field(record.fields@, path@) == Some(*x),
            None => find_field(record.fields@, path@) is None,
        },
{
    let mut k: usize = 0;
    assert(record.fields@.skip(0) =~= record.fields@);
    while k < record.fields.len()
        invariant
            k <= record.fields@.len(),
            find_field(record.fields@, path@) == find_field(record.fields@.skip(k as int), path@),
        decreases record.fields.len() - k,
    {
        let ghost rest = record.fields@.skip(k as int);
        assert(rest[0] == record.fields@[k as int]);
        if str_eq(record.fields[k].path.as_str(), path) {
            return Some(&record.fields[k]);
        }
        assert(rest.drop_first() =~= record.fields@.skip(k + 1));
        k = k + 1;
    }
    None
}

/// The identifiers strictly increase: sorted, without repetition.
pub open spec fn strictly_sorted(s: Seq<Record>) -> bool {
    forall|i: int, j: int| 0 <= i < j < s.len() ==> lex_lt(#[trigger] s[i].id@, #[trigger] s[j].id@)
}

/// The identifiers never decrease.
pub open spec fn sorted(s: Seq<Record>) -> bool {
    forall|i: int, j: int|
        0 <= i < j < s.len() ==> !lex_lt(#[trigger] s[j].id@, #[trigger] s[i].id@)
}

/// The last record of `s` with identifier `id`.
pub open spec fn latest(s: Seq<Record>, id: Seq<char>) -> Option<Record>
    decreases s.len(),
{
    if s.len() == 0 {
        None
    } else if s.last().id@ == id {
        Some(s.last())
    } else {
        latest(s.drop_last(), id)
    }
}

/// `merged` holds, once per identifier and in identifier order, the last
/// record of `records` with that identifier.
pub open spec fn merged_from(records: Seq<Record>, merged: Seq<Record>) -> bool {
    &&& strictly_sorted(merged)
    &&& forall|i: int| 0 <= i < merged.len() ==> latest(records, #[trigger] merged[i].id@) == Some(merged[i])
    &&& forall|k: int|
        0 <= k < records.len() ==> exists|i: int|
            0 <= i < merged.len() && #[trigger] merged[i].id@ == #[trigger] records[k].id@
}

proof fn lemma_latest_push(s: Seq<Record>, r: Record, id: Seq<char>)
    ensures
        latest(s.push(r), id) == (if r.id@ == id {
            Some(r)
        } else {
            latest(s, id)
        }),
{
    assert(s.push(r).drop_last() =~= s);
}

proof fn lemma_latest_has_id(s: Seq<Record>, id: Seq<char>)
    ensures
        latest(s, id) matches Some(r) ==> r.id@ == id,
    decreases s.len(),
{
    if s.len() > 0 && s.last().id@ != id {
        lemma_latest_has_id(s.drop_last(), id);
    }
}

/// The first position of `out` whose identifier does not sort before `id`.
fn position_for(out: &Vec<Record>, id: &str) -> (j: usize)
    ensures
        j <= out@.len(),
        forall|i: int| 0 <= i < j ==> lex_lt(#[trigger] out@[i].id@, id@),
        j < out@.len() ==> !lex_lt(out@[j as int].id@, id@),
{
    let mut j: usize = 0;
    while j < out.len()
        invariant
            j <= out@.len(),
            forall|i: int| 0 <= i < j ==> lex_lt(#[trigger] out@[i].id@, id@),
        decreases out.len() - j,
    {
        if !text_less(out[j].id.as_str(), id) {
            return j;
        }
        j = j + 1;
    }
    j
}

/// Merges `fresh` into `existing` by identifier: every identifier of either
/// is kept once, in identifier order, with the last record that carries it
/// (a fresh record replaces an existing one with its identifier).
pub fn merge_records(existing: Vec<Record>, fresh: Vec<Record>) -> (r: Vec<Record>)
    ensures
        merged_from(existing@ + fresh@, r@),
{
    let ghost all = existing@ + fresh@;
    let mut combined = existing;
    let mut tail = fresh;
    combined.append(&mut tail);
    assert(combined@ =~= all);
    let mut pending: Vec<Record> = Vec::new();
    while combined.len() > 0
        invariant
            pending@.len() + combined@.len() == all.len(),
            combined@ == all.take(combined@.len() as int),
            forall|k: int|
                0 <= k < pending@.len() ==> #[trigger] pending@[k] == all[all.len() - 1 - k],
        decreases combined.len(),
    {
        let x = combined.pop().unwrap();
        pending.push(x);
    }
    let total: usize = pending.len();
    assert(total == all.len());
    let mut out: Vec<Record> = Vec::new();
    let mut n: usize = 0;
    while pending.len() > 0
        invariant
            n + pending@.len() == all.len(),
            all.len() <= usize::MAX,
            forall|k: int|
                0 <= k < pending@.len() ==> #[trigger] pending@[k] == all[all.len() - 1 - k],
            merged_from(all.take(n as int), out@),
        decreases pending.len(),
    {
        let ghost before = out@;
        let ghost done = all.take(n as int);
        let rec = pending.pop().unwrap();
        assert(rec == all[n as int]);
        let ghost now = all.take(n + 1);
        assert(now =~= done.push(rec));
        let j = position_for(&out, rec.id.as_str());
        if j < out.len() && str_eq(out[j].id.as_str(), rec.id.as_str()) {
            out.set(j, rec);
            proof {
                assert forall|i: int| 0 <= i < out@.len() implies latest(
                    now,
                    #[trigger] out@[i].id@,
                ) == Some(out@[i]) by {
                    lemma_latest_push(done, rec, out@[i].id@);
                    if i != j {
                        lemma_lex_irreflexive(rec.id@);
                        if i < j {
                            assert(lex_lt(before[i].id@, before[j as int].id@));
                        } else {
                            assert(lex_lt(before[j as int].id@, before[i].id@));
                        }
                    }
                }
                assert forall|k: int| 0 <= k < now.len() implies exists|i: int|
                    0 <= i < out@.len() && #[trigger] out@[i].id@ == #[trigger] now[k].id@ by {
                    if k < n {
                        assert(now[k] == done[k]);
                        let i = choose|i: int|
                            0 <= i < before.len() && #[trigger] before[i].id@ == done[k].id@;
                        assert(out@[i].id@ == now[k].id@);
                    } else {
                        assert(out@[j as int].id@ == now[k].id@);
                    }
                }
            }
        } else {
            proof {
                if j < out@.len() {
                    lemma_lex_total(out@[j as int].id@, rec.id@);
                    assert(lex_lt(rec.id@, before[j as int].id@));
                }
            }
            out.insert(j, rec);
            proof {
                assert forall|a: int, b: int| 0 <= a < b < out@.len() implies lex_lt(
                    #[trigger] out@[a].id@,
                    #[trigger] out@[b].id@,
                ) by {
                    if a < j && b == j {
                    } else if a < j && b > j {
                        assert(out@[b].id@ == before[b - 1].id@);
                        if b - 1 > j {
                            assert(lex_lt(before[j as int].id@, before[b - 1].id@));
                            lemma_lex_transitive(rec.id@, before[j as int].id@, before[b - 1].id@);
                        }
                        lemma_lex_transitive(out@[a].id@, rec.id@, out@[b].id@);
                    } else if a == j {
                        assert(out@[b].id@ == before[b - 1].id@);
                        if b - 1 > j {
                            assert(lex_lt(before[j as int].id@, before[b - 1].id@));
                            lemma_lex_transitive(rec.id@, before[j as int].id@, before[b - 1].id@);
                        }
                    } else if a > j {
                        assert(out@[a].id@ == before[a - 1].id@);
                        assert(out@[b].id@ == before[b - 1].id@);
                    } else {
                        assert(out@[a].id@ == before[a].id@);
                        assert(out@[b].id@ == before[b].id@);
                    }
                }
                assert forall|i: int| 0 <= i < out@.len() implies latest(
                    now,
                    #[trigger] out@[i].id@,
                ) == Some(out@[i]) by {
                    lemma_latest_push(done, rec, out@[i].id@);
                    if i < j {
                        assert(out@[i] == before[i]);
                        assert(lex_lt(before[i].id@, rec.id@));
                        lemma_lex_irreflexive(rec.id@);
                    } else if i > j {
                        assert(out@[i] == before[i - 1]);
                        if i - 1 > j {
                            assert(lex_lt(before[j as int].id@, before[i - 1].id@));
                            lemma_lex_transitive(rec.id@, before[j as int].id@, before[i - 1].id@);
                        }
                        assert(lex_lt(rec.id@, out@[i].id@));
                        lemma_lex_irreflexive(rec.id@);
                    }
                }
                assert forall|k: int| 0 <= k < now.len() implies exists|i: int|
                    0 <= i < out@.len() && #[trigger] out@[i].id@ == #[trigger] now[k].id@ by {
                    if k < n {
                        assert(now[k] == done[k]);
                        let i = choose|i: int|
                            0 <= i < before.len() && #[trigger] before[i].id@ == done[k].id@;
                        if i < j {
                            assert(out@[i].id@ == now[k].id@);
                        } else {
                            assert(out@[i + 1].id@ == now[k].id@);
                        }
                    } else {
                        assert(out@[j as int].id@ == now[k].id@);
                    }
                }
            }
        }
        n = n + 1;
    }
    assert(all.take(n as int) =~= all);
    out
}

proof fn lemma_latest_append(a: Seq<Record>, b: Seq<Record>, id: Seq<char>)
    ensures
        latest(b, id) is Some ==> latest(a + b, id) == latest(b, id),
        latest(b, id) is None ==> latest(a + b, id) == latest(a, id),
    decreases b.len(),
{
    if b.len() == 0 {
        assert(a + b =~= a);
    } else {
        assert((a + b).drop_last() =~= a + b.drop_last());
        lemma_latest_append(a, b.drop_last(), id);
    }
}

proof fn lemma_latest_of_member(s: Seq<Record>, k: int)
    requires
        0 <= k < s.len(),
    ensures
        latest(s, s[k].id@) is Some,
    decreases s.len(),
{
    if k < s.len() - 1 && s.last().id@ != s[k].id@ {
        assert(s.drop_last()[k] == s[k]);
        lemma_latest_of_member(s.drop_last(), k);
    }
}

/// Law: merging never erases committed evidence and a fresh record takes
/// the place of the committed record with its identifier.  Every committed
/// identifier is still present, and for every fresh identifier the merge
/// holds the last fresh record that carries it.
pub proof fn lemma_merge_keeps_history(
    existing: Seq<Record>,
    fresh: Seq<Record>,
    merged: Seq<Record>,
)
    requires
        merged_from(existing + fresh, merged),
    ensures
        forall|k: int|
            0 <= k < existing.len() ==> exists|i: int|
                0 <= i < merged.len() && #[trigger] merged[i].id@ == #[trigger] existing[k].id@,
        forall|k: int|
            0 <= k < fresh.len() ==> exists|i: int|
                0 <= i < merged.len() && Some(#[trigger] merged[i]) == latest(
                    fresh,
                    #[trigger] fresh[k].id@,
                ),
{
    let all = existing + fresh;
    assert forall|k: int| 0 <= k < existing.len() implies exists|i: int|
        0 <= i < merged.len() && #[trigger] merged[i].id@ == #[trigger] existing[k].id@ by {
        assert(all[k] == existing[k]);
        let i = choose|i: int| 0 <= i < merged.len() && #[trigger] merged[i].id@ == all[k].id@;
        assert(merged[i].id@ == existing[k].id@);
    }
    assert forall|k: int| 0 <= k < fresh.len() implies exists|i: int|
        0 <= i < merged.len() && Some(#[trigger] merged[i]) == latest(
            fresh,
            #[trigger] fresh[k].id@,
        ) by {
        let kk = existing.len() + k;
        assert(all[kk] == fresh[k]);
        let i = choose|i: int| 0 <= i < merged.len() && #[trigger] merged[i].id@ == all[kk].id@;
        lemma_latest_of_member(fresh, k);
        lemma_latest_append(existing, fresh, fresh[k].id@);
        assert(latest(all, merged[i].id@) == Some(merged[i]));
    }
}

/// Inserts `rec` into a list sorted by identifier, after every record whose
/// identifier does not sort after its own, and returns the position it took.
fn insert_sorted(out: &mut Vec<Record>, rec: Record) -> (j: usize)
    requires
        sorted(old(out)@),
    ensures
        sorted(final(out)@),
        j <= old(out)@.len(),
        final(out)@ == old(out)@.insert(j as int, rec),
        forall|a: int| 0 <= a < j ==> !lex_lt(rec.id@, #[trigger] old(out)@[a].id@),
        forall|a: int| j <= a < old(out)@.len() ==> lex_lt(rec.id@, #[trigger] old(out)@[a].id@),
{
    let mut j: usize = out.len();
    while j > 0 && text_less(rec.id.as_str(), out[j - 1].id.as_str())
        invariant
            j <= out@.len(),
            out@ == old(out)@,
            forall|i: int| j <= i < out@.len() ==> lex_lt(rec.id@, #[trigger] out@[i].id@),
        decreases j,
    {
        j = j - 1;
    }
    let ghost before = out@;
    proof {
        if j > 0 {
            assert(!lex_lt(rec.id@, before[j - 1].id@));
        }
        assert forall|a: int| 0 <= a < j implies !lex_lt(rec.id@, #[trigger] before[a].id@) by {
            if a < j - 1 && lex_lt(rec.id@, before[a].id@) {
                assert(!lex_lt(before[j - 1].id@, before[a].id@));
                lemma_lex_total(before[a].id@, before[j - 1].id@);
                if lex_lt(before[a].id@, before[j - 1].id@) {
                    lemma_lex_transitive(rec.id@, before[a].id@, before[j - 1].id@);
                }
            }
        }
    }
    out.insert(j, rec);
    proof {
        assert(out@ =~= before.insert(j as int, rec));
        assert forall|a: int, b: int| 0 <= a < b < out@.len() implies !lex_lt(
            #[trigger] out@[b].id@,
            #[trigger] out@[a].id@,
        ) by {
            if b == j {
                assert(out@[a] == before[a]);
                if lex_lt(rec.id@, before[a].id@) {
                    assert(false);
                }
            } else if a == j {
                assert(out@[b] == before[b - 1]);
                lemma_lex_asymmetric(rec.id@, before[b - 1].id@);
            } else if a < j && b > j {
                assert(out@[a] == before[a]);
                assert(out@[b] == before[b - 1]);
            } else if b < j {
                assert(out@[a] == before[a]);
                assert(out@[b] == before[b]);
            } else {
                assert(out@[a] == before[a - 1]);
                assert(out@[b] == before[b - 1]);
            }
        }
    }
    j
}

/// `sorted` lists `records` stably ordered by identifier.
pub open spec fn stably_sorted(records: Seq<Record>, sorted: Seq<Record>) -> bool {
    exists|sel: Seq<usize>|
        crate::runtime_report::ordered_selection(records, crate::runtime_report::all_chosen(records), sel)
            && sorted == sel.map_values(|k: usize| records[k as int])
}

/// The records ordered by identifier, records with equal identifiers in
/// their given order: the order of a stable sort.
pub fn sort_records(records: Vec<Record>) -> (r: Vec<Record>)
    ensures
        stably_sorted(records@, r@),
{
    let ghost given = records@;
    let ghost chosen = crate::runtime_report::all_chosen(given);
    let mut rest = records;
    let total = rest.len();
    assert(given.len() == total);
    let mut out: Vec<Record> = Vec::new();
    let ghost mut sel: Seq<usize> = Seq::empty();
    let mut i: usize = 0;
    while rest.len() > 0
        invariant
            i + rest@.len() == given.len(),
            given.len() <= usize::MAX,
            rest@ == given.skip(i as int),
            chosen == crate::runtime_report::all_chosen(given),
            sorted(out@),
            out@.len() == sel.len(),
            forall|a: int| 0 <= a < sel.len() ==> out@[a] == given[#[trigger] sel[a] as int],
            forall|a: int, b: int|
                0 <= a < b < sel.len() ==> crate::runtime_report::sorts_before(
                    given,
                    #[trigger] sel[a] as int,
                    #[trigger] sel[b] as int,
                ),
            forall|k: int| 0 <= k < sel.len() ==> (#[trigger] sel[k]) < i,
            forall|t: int|
                0 <= t < i && #[trigger] chosen[t] ==> exists|k: int| 0 <= k < sel.len() && #[trigger] sel[k] == t,
        decreases rest.len(),
    {
        let ghost before_out = out@;
        let ghost before_sel = sel;
        let x = rest.remove(0);
        assert(x == given[i as int]);
        assert(rest@ =~= given.skip(i + 1));
        let j = insert_sorted(&mut out, x);
        proof {
            sel = before_sel.insert(j as int, i as usize);
            assert forall|a: int| 0 <= a < sel.len() implies out@[a] == given[#[trigger] sel[a] as int] by {
                if a < j {
                    assert(sel[a] == before_sel[a]);
                } else if a > j {
                    assert(sel[a] == before_sel[a - 1]);
                }
            }
            assert forall|a: int, b: int| 0 <= a < b < sel.len() implies crate::runtime_report::sorts_before(
                given,
                #[trigger] sel[a] as int,
                #[trigger] sel[b] as int,
            ) by {
                let xi = given[i as int].id@;
                if b == j {
                    let y = before_sel[a] as int;
                    assert(sel[a] == before_sel[a]);
                    assert(before_out[a] == given[y]);
                    assert(!lex_lt(xi, given[y].id@));
                    lemma_lex_total(given[y].id@, xi);
                } else if a == j {
                    let y = before_sel[b - 1] as int;
                    assert(sel[b] == before_sel[b - 1]);
                    assert(before_out[b - 1] == given[y]);
                    assert(lex_lt(xi, given[y].id@));
                } else if a < j && b > j {
                    assert(sel[a] == before_sel[a]);
                    assert(sel[b] == before_sel[b - 1]);
                } else if b < j {
                    assert(sel[a] == before_sel[a]);
                    assert(sel[b] == before_sel[b]);
                } else {
                    assert(sel[a] == before_sel[a - 1]);
                    assert(sel[b] == before_sel[b - 1]);
                }
            }
            assert forall|t: int| 0 <= t < i + 1 && #[trigger] chosen[t] implies exists|k: int|
                0 <= k < sel.len() && #[trigger] sel[k] == t by {
                if t == i {
                    assert(sel[j as int] == i);
                } else {
                    let k = choose|k: int| 0 <= k < before_sel.len() && #[trigger] before_sel[k] == t;
                    if k < j {
                        assert(sel[k] == t);
                    } else {
                        assert(sel[k + 1] == t);
                    }
                }
            }
            assert forall|k: int| 0 <= k < sel.len() implies (#[trigger] sel[k]) < i + 1 by {
                if k < j {
                    assert(sel[k] == before_sel[k]);
                } else if k > j {
                    assert(sel[k] == before_sel[k - 1]);
                }
            }
        }
        i = i + 1;
    }
    proof {
        assert(crate::runtime_report::ordered_selection(given, chosen, sel));
        assert(out@ =~= sel.map_values(|k: usize| given[k as int]));
    }
    out
}

/// Each record's JSON text followed by a line feed.
pub open spec fn lines_text(records: Seq<Record>) -> Seq<char>
    decreases records.len(),
{
    if records.len() == 0 {
        Seq::empty()
    } else {
        lines_text(records.drop_last()) + records.last().json@ + "\n"@
    }
}

/// JSON Lines text of records in the given order; an empty file is a
/// single line feed.
pub open spec fn jsonl_text(records: Seq<Record>) -> Seq<char> {
    if records.len() == 0 {
        "\n"@
    } else {
        lines_text(records)
    }
}

pub fn frame_lines(records: &Vec<Record>) -> (s: String)
    ensures
        s@ == jsonl_text(records@),
{
    let mut s = String::new();
    let mut i: usize = 0;
    while i < records.len()
        invariant
            i <= records@.len(),
            s@ == lines_text(records@.take(i as int)),
        decreases records.len() - i,
    {
        push_str(&mut s, records[i].json.as_str());
        push_str(&mut s, "\n");
        assert(records@.take(i + 1).drop_last() =~= records@.take(i as int));
        i = i + 1;
    }
    assert(records@.take(i as int) =~= records@);
    if records.len() == 0 {
        push_str(&mut s, "\n");
    }
    s
}

/// The records as JSON Lines, stably ordered by identifier.
pub fn jsonl(records: Vec<Record>) -> (s: String)
    ensures
        crate::runtime_report::is_jsonl_of(s@, records@),
{
    let ghost given = records@;
    let ordered = sort_records(records);
    let s = frame_lines(&ordered);
    proof {
        crate::runtime_report::lemma_jsonl_of_sorted(s@, given, ordered@);
    }
    s
}

/// The number of records whose status is `completed`.
pub open spec fn completed_count(cases: Seq<Record>) -> nat
    decreases cases.len(),
{
    if cases.len() == 0 {
        0
    } else {
        completed_count(cases.drop_last()) + if cases.last().status@ == "completed"@ {
            1nat
        } else {
            0nat
        }
    }
}

proof fn lemma_completed_bounded(cases: Seq<Record>)
    ensures
        completed_count(cases) <= cases.len(),
    decreases cases.len(),
{
    if cases.len() > 0 {
        lemma_completed_bounded(cases.drop_last());
    }
}

/// Counts a run's observations and its completed and other cases.
pub fn summarize(observations: usize, cases: &Vec<Record>) -> (r: LiveSummary)
    ensures
        r.observations == observations,
        r.completed_cases == completed_count(cases@),
        r.completed_cases + r.inconclusive_cases == cases@.len(),
{
    let mut completed: usize = 0;
    let mut i: usize = 0;
    while i < cases.len()
        invariant
            i <= cases@.len(),
            completed == completed_count(cases@.take(i as int)),
            completed <= i,
        decreases cases.len() - i,
    {
        assert(cases@.take(i + 1).drop_last() =~= cases@.take(i as int));
        if str_eq(cases[i].status.as_str(), "completed") {
            completed = completed + 1;
        }
        i = i + 1;
    }
    assert(cases@.take(i as int) =~= cases@);
    LiveSummary { observations, completed_cases: completed, inconclusive_cases: i - completed }
}

/// The committed runtime evidence: the source manifest and four record sets.
#[derive(Debug)]
pub struct Capture {
    pub manifest: String,
    pub environments: Vec<Record>,
    pub observations: Vec<Record>,
    pub cases: Vec<Record>,
    pub unresolved: Vec<Record>,
}

/// `merged` is `fresh` merged into `existing`.
pub open spec fn capture_merged(existing: Capture, fresh: Capture, merged: Capture) -> bool {
    &&& merged.manifest == fresh.manifest
    &&& merged_from(existing.environments@ + fresh.environments@, merged.environments@)
    &&& merged_from(existing.observations@ + fresh.observations@, merged.observations@)
    &&& merged_from(existing.cases@ + fresh.cases@, merged.cases@)
    &&& merged_from(existing.unresolved@ + fresh.unresolved@, merged.unresolved@)
}

/// Merges a fresh capture into the committed one: the fresh manifest
/// replaces the old one and every record set is merged by identifier.
pub fn merge_capture(existing: Capture, fresh: Capture) -> (r: Capture)
    ensures
        capture_merged(existing, fresh, r),
{
    let ghost old_existing = existing;
    let ghost old_fresh = fresh;
    let Capture {
        manifest: _,
        environments: e1,
        observations: o1,
        cases: c1,
        unresolved: u1,
    } = existing;
    let Capture {
        manifest,
        environments: e2,
        observations: o2,
        cases: c2,
        unresolved: u2,
    } = fresh;
    Capture {
        manifest,
        environments: merge_records(e1, e2),
        observations: merge_records(o1, o2),
        cases: merge_records(c1, c2),
        unresolved: merge_records(u1, u2),
    }
}

/// Summarizes a fresh live capture and merges it into the committed
/// evidence, so that no earlier observation is erased.
fn record_run(existing: Capture, fresh: Capture) -> (r: (LiveSummary, Capture))
    ensures
        r.0.observations == fresh.observations@.len(),
        r.0.completed_cases == completed_count(fresh.cases@),
        r.0.completed_cases + r.0.inconclusive_cases == fresh.cases@.len(),
        capture_merged(existing, fresh, r.1),
{
    let summary = summarize(fresh.observations.len(), &fresh.cases);
    (summary, merge_capture(existing, fresh))
}

/// The outcome of the live Range diagnostic: the fresh run's counts and the
/// committed evidence with the fresh records merged in.
pub fn diagnose(existing: Capture, fresh: Capture) -> (r: (LiveSummary, Capture))
    ensures
        r.0.observations == fresh.observations@.len(),
        r.0.completed_cases == completed_count(fresh.cases@),
        r.0.completed_cases + r.0.inconclusive_cases == fresh.cases@.len(),
        capture_merged(existing, fresh, r.1),
{
    record_run(existing, fresh)
}

/// The live run; the same as `diagnose`.
pub fn live(existing: Capture, fresh: Capture) -> (r: (LiveSummary, Capture))
    ensures
        r.0.observations == fresh.observations@.len(),
        r.0.completed_cases == completed_count(fresh.cases@),
        r.0.completed_cases + r.0.inconclusive_cases == fresh.cases@.len(),
        capture_merged(existing, fresh, r.1),
{
    diagnose(existing, fresh)
}

/// The outcome of one parity configuration's run, merged as `diagnose` does.
pub fn parity(existing: Capture, fresh: Capture) -> (r: (LiveSummary, Capture))
    ensures
        r.0.observations == fresh.observations@.len(),
        r.0.completed_cases == completed_count(fresh.cases@),
        r.0.completed_cases + r.0.inconclusive_cases == fresh.cases@.len(),
        capture_merged(existing, fresh, r.1),
{
    record_run(existing, fresh)
}

} // verus!
