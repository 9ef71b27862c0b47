//! Measurement points: a named measurement with unique tag keys,
//! unique field keys and one nanosecond timestamp, as handed to the
//! uploader. Building a point from a decoded record and the configured
//! extra tags is verified to keep the keys unique.

use crate::records::accurite::{AccuriteRecord, AccuriteRecordV};
use crate::text::{spec_dec_digits, str_eq, u64_to_dec_string};
use vstd::prelude::*;
use vstd::string::StringExecFns;

verus! {

/// A field value of a point: an integer, or a decimal carried in
/// thousandths (rendered as a float at the store boundary).
#[derive(Clone, Copy, Debug, PartialEq, Eq)]
pub enum FieldValue {
    Int(i64),
    Milli(i64),
}

/// Spec-level value of a field.
pub enum FieldValueV {
    Int(int),
    Milli(int),
}

impl View for FieldValue {
    type V = FieldValueV;

    open spec fn view(&self) -> FieldValueV {
        match self {
            FieldValue::Int(n) => FieldValueV::Int(*n as int),
            FieldValue::Milli(m) => FieldValueV::Milli(*m as int),
        }
    }
}

/// One measurement bound for the store.
pub struct Point {
    pub name: String,
    pub tags: Vec<(String, String)>,
    pub fields: Vec<(String, FieldValue)>,
    pub timestamp_ns: i64,
}

/// Spec-level value of a point.
pub struct PointV {
    pub name: Seq<char>,
    pub tags: Seq<(Seq<char>, Seq<char>)>,
    pub fields: Seq<(Seq<char>, FieldValueV)>,
    pub timestamp_ns: int,
}

/// The spec view of a tag list.
pub open spec fn string_pairs_view(v: Seq<(String, String)>) -> Seq<(Seq<char>, Seq<char>)> {
    Seq::new(v.len(), |k: int| (v[k].0@, v[k].1@))
}

/// The spec view of a field list.
pub open spec fn field_pairs_view(v: Seq<(String, FieldValue)>) -> Seq<(Seq<char>, FieldValueV)> {
    Seq::new(v.len(), |k: int| (v[k].0@, v[k].1@))
}

impl View for Point {
    type V = PointV;

    open spec fn view(&self) -> PointV {
        PointV {
            name: self.name@,
            tags: string_pairs_view(self.tags@),
            fields: field_pairs_view(self.fields@),
            timestamp_ns: self.timestamp_ns as int,
        }
    }
}

/// No two entries share a key.
pub open spec fn unique_keys<T>(s: Seq<(Seq<char>, T)>) -> bool {
    forall|a: int, b: int| 0 <= a < b < s.len() ==> s[a].0 != s[b].0
}

/// Some entry carries the key `k`.
pub open spec fn has_key<T>(s: Seq<(Seq<char>, T)>, k: Seq<char>) -> bool {
    exists|i: int| 0 <= i < s.len() && s[i].0 == k
}

/// Sets the value of key `k`, replacing the first entry with that key
/// or appending a new entry: last writer wins on a key collision.
pub open spec fn spec_upsert(
    tags: Seq<(Seq<char>, Seq<char>)>,
    k: Seq<char>,
    v: Seq<char>,
) -> Seq<(Seq<char>, Seq<char>)>
    decreases tags.len(),
{
    if tags.len() == 0 {
        seq![(k, v)]
    } else if tags[0].0 == k {
        seq![(k, v)] + tags.drop_first()
    } else {
        seq![tags[0]] + spec_upsert(tags.drop_first(), k, v)
    }
}

/// Merges the configured extra tags into a tag list, in order.
pub open spec fn spec_merge_tags(
    tags: Seq<(Seq<char>, Seq<char>)>,
    extras: Seq<(Seq<char>, Seq<char>)>,
) -> Seq<(Seq<char>, Seq<char>)>
    decreases extras.len(),
{
    if extras.len() == 0 {
        tags
    } else {
        spec_merge_tags(spec_upsert(tags, extras[0].0, extras[0].1), extras.drop_first())
    }
}

/// Upserting keeps keys unique, never shrinks the list, and the keys
/// afterwards are exactly the old keys plus `k`.
pub proof fn lemma_upsert_props(s: Seq<(Seq<char>, Seq<char>)>, k: Seq<char>, v: Seq<char>)
    requires
        unique_keys(s),
    ensures
        spec_upsert(s, k, v).len() >= s.len(),
        unique_keys(spec_upsert(s, k, v)),
        has_key(spec_upsert(s, k, v), k),
        forall|q: Seq<char>| has_key(spec_upsert(s, k, v), q) <==> (has_key(s, q) || q == k),
    decreases s.len(),
{
    let r = spec_upsert(s, k, v);
    if s.len() == 0 {
        assert(r =~= seq![(k, v)]);
        assert(r[0].0 == k);
        assert forall|q: Seq<char>| has_key(r, q) <==> (has_key(s, q) || q == k) by {
            if has_key(r, q) {
                let i = choose|i: int| 0 <= i < r.len() && r[i].0 == q;
                assert(i == 0);
            }
        }
    } else if s[0].0 == k {
        let d = s.drop_first();
        assert(r =~= seq![(k, v)] + d);
        assert(r.len() == s.len());
        assert forall|a: int, b: int| 0 <= a < b < r.len() implies r[a].0 != r[b].0 by {
            if a == 0 {
                assert(r[b].0 == s[b].0);
                assert(s[0].0 != s[b].0);
            } else {
                assert(r[a].0 == s[a].0 && r[b].0 == s[b].0);
            }
        }
        assert forall|q: Seq<char>| has_key(r, q) <==> (has_key(s, q) || q == k) by {
            if has_key(r, q) {
                let i = choose|i: int| 0 <= i < r.len() && r[i].0 == q;
                if i == 0 {
                    assert(q == k);
                } else {
                    assert(s[i].0 == q);
                    assert(has_key(s, q));
                }
            }
            if has_key(s, q) {
                let i = choose|i: int| 0 <= i < s.len() && s[i].0 == q;
                if i == 0 {
                    assert(q == k);
                    assert(r[0].0 == q);
                } else {
                    assert(r[i].0 == q);
                }
                assert(has_key(r, q));
            }
            if q == k {
                assert(r[0].0 == q);
                assert(has_key(r, q));
            }
        }
    } else {
        let d = s.drop_first();
        assert forall|a: int, b: int| 0 <= a < b < d.len() implies d[a].0 != d[b].0 by {
            assert(d[a] == s[a + 1] && d[b] == s[b + 1]);
        }
        lemma_upsert_props(d, k, v);
        let u = spec_upsert(d, k, v);
        assert(r =~= seq![s[0]] + u);
        assert(has_key(r, k)) by {
            let j = choose|j: int| 0 <= j < u.len() && u[j].0 == k;
            assert(r[j + 1].0 == k);
        }
        assert forall|a: int, b: int| 0 <= a < b < r.len() implies r[a].0 != r[b].0 by {
            if a == 0 {
                assert(r[b].0 == u[b - 1].0);
                assert(has_key(u, u[b - 1].0));
                if r[0].0 == r[b].0 {
                    let q = r[b].0;
                    assert(has_key(d, q) || q == k);
                    if has_key(d, q) {
                        let i = choose|i: int| 0 <= i < d.len() && d[i].0 == q;
                        assert(s[i + 1].0 == s[0].0);
                        assert(false);
                    } else {
                        assert(s[0].0 == k);
                        assert(false);
                    }
                }
            } else {
                assert(r[a].0 == u[a - 1].0 && r[b].0 == u[b - 1].0);
            }
        }
        assert forall|q: Seq<char>| has_key(r, q) <==> (has_key(s, q) || q == k) by {
            if has_key(r, q) {
                let i = choose|i: int| 0 <= i < r.len() && r[i].0 == q;
                if i == 0 {
                    assert(s[0].0 == q);
                    assert(has_key(s, q));
                } else {
                    assert(u[i - 1].0 == q);
                    assert(has_key(u, q));
                    if has_key(d, q) {
                        let j = choose|j: int| 0 <= j < d.len() && d[j].0 == q;
                        assert(s[j + 1].0 == q);
                        assert(has_key(s, q));
                    }
                }
            }
            if has_key(s, q) {
                let i = choose|i: int| 0 <= i < s.len() && s[i].0 == q;
                if i == 0 {
                    assert(r[0].0 == q);
                } else {
                    assert(d[i - 1].0 == q);
                    assert(has_key(d, q));
                    assert(has_key(u, q));
                    let j = choose|j: int| 0 <= j < u.len() && u[j].0 == q;
                    assert(r[j + 1].0 == q);
                }
                assert(has_key(r, q));
            }
            if q == k {
                assert(has_key(r, q));
            }
        }
    }
}

/// Merging keeps keys unique and never shrinks the tag list.
pub proof fn lemma_merge_props(
    tags: Seq<(Seq<char>, Seq<char>)>,
    extras: Seq<(Seq<char>, Seq<char>)>,
)
    requires
        unique_keys(tags),
    ensures
        unique_keys(spec_merge_tags(tags, extras)),
        spec_merge_tags(tags, extras).len() >= tags.len(),
    decreases extras.len(),
{
    if extras.len() == 0 {
    } else {
        lemma_upsert_props(tags, extras[0].0, extras[0].1);
        lemma_merge_props(spec_upsert(tags, extras[0].0, extras[0].1), extras.drop_first());
    }
}

/// The construction-time tags of a record: its model and its decimal
/// identity.
pub open spec fn spec_base_tags(r: AccuriteRecordV) -> Seq<(Seq<char>, Seq<char>)> {
    seq![("model"@, r.model), ("id"@, spec_dec_digits(r.id))]
}

/// The three fields of a tower point: the battery-low indicator
/// (1 exactly when the battery is not ok), the temperature in
/// thousandths of a degree, and the humidity.
pub open spec fn spec_fields(r: AccuriteRecordV) -> Seq<(Seq<char>, FieldValueV)> {
    seq![
        (
            "battery_low"@,
            FieldValueV::Int(
                if r.battery_ok {
                    0
                } else {
                    1
                },
            ),
        ),
        ("temp_c"@, FieldValueV::Milli(r.temp_milli_c)),
        ("humidity"@, FieldValueV::Int(r.humidity)),
    ]
}

/// The completed point for a decoded record: named for the sensor
/// family, tagged with model and identity plus the configured extras,
/// and stamped with the ingestion time.
pub open spec fn spec_point(
    name: Seq<char>,
    r: AccuriteRecordV,
    extras: Seq<(Seq<char>, Seq<char>)>,
    ts: int,
) -> PointV {
    PointV {
        name,
        tags: spec_merge_tags(spec_base_tags(r), extras),
        fields: spec_fields(r),
        timestamp_ns: ts,
    }
}

/// Law: a completed point always has exactly three fields, at least
/// the model and identity tags, unique tag keys, unique field keys and
/// the timestamp it was stamped with.
pub proof fn lemma_point_shape(
    name: Seq<char>,
    r: AccuriteRecordV,
    extras: Seq<(Seq<char>, Seq<char>)>,
    ts: int,
)
    ensures
        spec_point(name, r, extras, ts).fields.len() == 3,
        spec_point(name, r, extras, ts).tags.len() >= 2,
        unique_keys(spec_point(name, r, extras, ts).tags),
        unique_keys(spec_point(name, r, extras, ts).fields),
        spec_point(name, r, extras, ts).timestamp_ns == ts,
{
    reveal_strlit("model");
    reveal_strlit("id");
    reveal_strlit("battery_low");
    reveal_strlit("temp_c");
    reveal_strlit("humidity");
    assert("model"@.len() == 5 && "id"@.len() == 2);
    assert(unique_keys(spec_base_tags(r)));
    lemma_merge_props(spec_base_tags(r), extras);
    assert("battery_low"@.len() == 11 && "temp_c"@.len() == 6 && "humidity"@.len() == 8);
    assert(unique_keys(spec_fields(r)));
}

/// Sets tag `k` to `v`, replacing the first entry with that key or
/// appending a new one.
pub fn upsert_tag(tags: &mut Vec<(String, String)>, k: String, v: String)
    ensures
        string_pairs_view(final(tags)@) == spec_upsert(string_pairs_view(old(tags)@), k@, v@),
{
    let ghost s0 = string_pairs_view(tags@);
    let mut i: usize = 0;
    while i < tags.len()
        invariant
            i <= tags@.len(),
            tags@ == old(tags)@,
            s0 == string_pairs_view(tags@),
            forall|j: int| 0 <= j < i ==> s0[j].0 != k@,
        decreases tags@.len() - i,
    {
        let same = str_eq(tags[i].0.as_str(), k.as_str());
        if same {
            tags.set(i, (k, v));
            proof {
                lemma_upsert_found(s0, k@, v@, i as int);
                assert(string_pairs_view(tags@) =~= s0.update(i as int, (k@, v@)));
            }
            return ;
        }
        i = i + 1;
    }
    tags.push((k, v));
    proof {
        lemma_upsert_missing(s0, k@, v@);
        assert(string_pairs_view(tags@) =~= s0.push((k@, v@)));
    }
}

proof fn lemma_upsert_found(s: Seq<(Seq<char>, Seq<char>)>, k: Seq<char>, v: Seq<char>, idx: int)
    requires
        0 <= idx < s.len(),
        s[idx].0 == k,
        forall|j: int| 0 <= j < idx ==> s[j].0 != k,
    ensures
        spec_upsert(s, k, v) =~= s.update(idx, (k, v)),
    decreases idx,
{
    if idx == 0 {
        assert(spec_upsert(s, k, v) =~= seq![(k, v)] + s.drop_first());
    } else {
        let d = s.drop_first();
        assert(d[idx - 1].0 == k);
        lemma_upsert_found(d, k, v, idx - 1);
    }
}

proof fn lemma_upsert_missing(s: Seq<(Seq<char>, Seq<char>)>, k: Seq<char>, v: Seq<char>)
    requires
        forall|j: int| 0 <= j < s.len() ==> s[j].0 != k,
    ensures
        spec_upsert(s, k, v) =~= s.push((k, v)),
    decreases s.len(),
{
    if s.len() == 0 {
    } else {
        let d = s.drop_first();
        lemma_upsert_missing(d, k, v);
    }
}

/// Merges every configured extra tag into the list, in order.
pub fn merge_tags(tags: &mut Vec<(String, String)>, extras: &Vec<(String, String)>)
    ensures
        string_pairs_view(final(tags)@) == spec_merge_tags(
            string_pairs_view(old(tags)@),
            string_pairs_view(extras@),
        ),
{
    let ghost t0 = string_pairs_view(tags@);
    let ghost es = string_pairs_view(extras@);
    proof {
        assert(es.skip(0) =~= es);
    }
    let mut i: usize = 0;
    while i < extras.len()
        invariant
            i <= extras@.len(),
            es == string_pairs_view(extras@),
            t0 == string_pairs_view(old(tags)@),
            spec_merge_tags(t0, es) == spec_merge_tags(
                string_pairs_view(tags@),
                es.skip(i as int),
            ),
        decreases extras@.len() - i,
    {
        let k = extras[i].0.clone();
        let v = extras[i].1.clone();
        proof {
            assert(es.skip(i as int)[0] == (k@, v@));
            assert(es.skip(i as int).drop_first() =~= es.skip(i as int + 1));
        }
        upsert_tag(tags, k, v);
        i = i + 1;
    }
}

impl Point {
    /// Builds the completed point for a decoded record.
    pub fn build(name: &str, rec: &AccuriteRecord, extras: &Vec<(String, String)>, timestamp_ns: i64) -> (p:
        Point)
        ensures
            p@ == spec_point(name@, rec@, string_pairs_view(extras@), timestamp_ns as int),
    {
        let mut tags: Vec<(String, String)> = Vec::new();
        tags.push((String::from_str("model"), rec.model.clone()));
        tags.push((String::from_str("id"), u64_to_dec_string(rec.id)));
        proof {
            assert(string_pairs_view(tags@) =~= spec_base_tags(rec@));
        }
        merge_tags(&mut tags, extras);
        let mut fields: Vec<(String, FieldValue)> = Vec::new();
        let battery_low: i64 = if rec.battery_ok {
            0
        } else {
            1
        };
        fields.push((String::from_str("battery_low"), FieldValue::Int(battery_low)));
        fields.push((String::from_str("temp_c"), FieldValue::Milli(rec.temp_milli_c)));
        fields.push((String::from_str("humidity"), FieldValue::Int(rec.humidity as i64)));
        proof {
            assert(field_pairs_view(fields@) =~= spec_fields(rec@));
        }
        Point { name: name.to_owned(), tags, fields, timestamp_ns }
    }
}

} // verus!
