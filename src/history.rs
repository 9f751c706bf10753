//! The append-only remediation history: its records, their line format, and
//! the per-container count.
use vstd::prelude::*;

use crate::report::{decimal, decimal_text, json_object, json_object_text, members_view, tag, tag_text};

verus! {

/// One remediation event as it is stored, one JSON object per line.
#[derive(Clone, Debug)]
pub struct JsonRecord {
    pub date: String,
    pub name: String,
    pub id: String,
    pub err: String,
    pub action: String,
}

impl JsonRecord {
    pub fn new(date: String, name: String, id: String, err: String, action: String) -> (r: JsonRecord)
        ensures
            r.date@ == date@,
            r.name@ == name@,
            r.id@ == id@,
            r.err@ == err@,
            r.action@ == action@,
    {
        JsonRecord { date, name, id, err, action }
    }
}

/// The members of a record's JSON object, listed in field order. The
/// stored line carries the same members; serde_json writes its object keys
/// sorted (action, date, err, id, name).
pub open spec fn record_members(r: JsonRecord) -> Seq<(Seq<char>, Seq<char>)> {
    seq![
        ("date"@, r.date@),
        ("name"@, r.name@),
        ("id"@, r.id@),
        ("err"@, r.err@),
        ("action"@, r.action@),
    ]
}

/// The line that stores a record, without its newline.
pub fn record_line(r: &JsonRecord) -> (line: String)
    ensures
        line@ == json_object_text(record_members(*r)),
{
    let mut members: Vec<(String, String)> = Vec::new();
    members.push((String::from_str("date"), r.date.clone()));
    members.push((String::from_str("name"), r.name.clone()));
    members.push((String::from_str("id"), r.id.clone()));
    members.push((String::from_str("err"), r.err.clone()));
    members.push((String::from_str("action"), r.action.clone()));
    proof {
        assert(members_view(members@) =~= record_members(*r));
    }
    json_object(&members)
}

/// How many of `records` carry the container id `id`.
pub open spec fn id_count(records: Seq<JsonRecord>, id: Seq<char>) -> nat
    decreases records.len(),
{
    if records.len() == 0 {
        0
    } else {
        id_count(records.drop_last(), id) + if records.last().id@ == id {
            1nat
        } else {
            0nat
        }
    }
}

/// Counts the records of the container `id`.
pub fn record_count(records: &Vec<JsonRecord>, id: &str) -> (r: usize)
    ensures
        r == id_count(records@, id@),
{
    let mut n: usize = 0;
    let mut i: usize = 0;
    while i < records.len()
        invariant
            i <= records@.len(),
            n == id_count(records@.subrange(0, i as int), id@),
            n <= i,
        decreases records@.len() - i,
    {
        proof {
            assert(records@.subrange(0, i + 1).drop_last() =~= records@.subrange(0, i as int));
        }
        if crate::text::text_eq(records[i].id.as_str(), id) {
            n = n + 1;
        }
        i = i + 1;
    }
    assert(records@.subrange(0, records@.len() as int) =~= records@);
    n
}

proof fn lemma_count_remove(s: Seq<JsonRecord>, j: int, id: Seq<char>)
    requires
        0 <= j < s.len(),
    ensures
        id_count(s, id) == id_count(s.remove(j), id) + if s[j].id@ == id {
            1nat
        } else {
            0nat
        },
    decreases s.len(),
{
    if j == s.len() - 1 {
        assert(s.remove(j) =~= s.drop_last());
    } else {
        assert(s.remove(j).drop_last() =~= s.drop_last().remove(j));
        lemma_count_remove(s.drop_last(), j, id);
    }
}

/// The count of a container's records does not depend on the order in which
/// they were written: any two histories holding the same records give the
/// same count for every id.
pub proof fn lemma_count_order_independent(a: Seq<JsonRecord>, b: Seq<JsonRecord>, id: Seq<char>)
    requires
        a.to_multiset() =~= b.to_multiset(),
    ensures
        id_count(a, id) == id_count(b, id),
    decreases a.len(),
{
    broadcast use vstd::seq_lib::group_to_multiset_ensures;

    if a.len() == 0 {
        assert(b.to_multiset().len() == 0);
        assert(b.len() == 0);
    } else {
        let x = a.last();
        assert(a =~= a.drop_last().push(x));
        assert(a.to_multiset().count(x) > 0);
        assert(b.contains(x));
        let j = choose|j: int| 0 <= j < b.len() && b[j] == x;
        let b2 = b.remove(j);
        assert(b2.to_multiset() =~= b.to_multiset().remove(x));
        assert(a.drop_last().to_multiset() =~= a.to_multiset().remove(x));
        lemma_count_order_independent(a.drop_last(), b2, id);
        lemma_count_remove(b, j, id);
    }
}

/// The text `[<name> (<id>)] Container has been unhealthy <n> time(s)`.
pub open spec fn count_message(name: Seq<char>, id: Seq<char>, n: nat) -> Seq<char> {
    tag(name, id) + "Container has been unhealthy "@ + decimal(n as int) + if n > 1 {
        " times"@
    } else {
        " time"@
    }
}

pub fn count_text(name: &str, id: &str, n: usize) -> (r: String)
    ensures
        r@ == count_message(name@, id@, n as nat),
{
    let mut s = tag_text(name, id);
    s.append("Container has been unhealthy ");
    let digits = decimal_text(n as i128);
    s.append(digits.as_str());
    if n > 1 {
        s.append(" times");
    } else {
        s.append(" time");
    }
    s
}

} // verus!
