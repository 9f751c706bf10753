//! What discovery asks the runtime for, and how a listed container becomes a
//! candidate's name and id.
use vstd::prelude::*;

use crate::text::text_eq;

verus! {

/// A character with the Unicode `White_Space` property.
pub open spec fn is_space(c: char) -> bool {
    ('\t' <= c && c <= '\r') || c == ' ' || c == '\u{85}' || c == '\u{a0}' || c == '\u{1680}'
        || ('\u{2000}' <= c && c <= '\u{200a}') || c == '\u{2028}' || c == '\u{2029}'
        || c == '\u{202f}' || c == '\u{205f}' || c == '\u{3000}'
}

/// The characters stripped from a name: `/` in the first pass, whitespace in the second.
pub open spec fn strippable(c: char, slash: bool) -> bool {
    if slash {
        c == '/'
    } else {
        is_space(c)
    }
}

pub open spec fn strip_start(s: Seq<char>, slash: bool) -> Seq<char>
    decreases s.len(),
{
    if s.len() > 0 && strippable(s[0], slash) {
        strip_start(s.drop_first(), slash)
    } else {
        s
    }
}

pub open spec fn strip_end(s: Seq<char>, slash: bool) -> Seq<char>
    decreases s.len(),
{
    if s.len() > 0 && strippable(s.last(), slash) {
        strip_end(s.drop_last(), slash)
    } else {
        s
    }
}

pub open spec fn strip(s: Seq<char>, slash: bool) -> Seq<char> {
    strip_end(strip_start(s, slash), slash)
}

/// A container's name: its first listed name without surrounding `/`, then
/// without surrounding whitespace; empty when none is listed.
pub open spec fn name_of(names: Seq<String>) -> Seq<char> {
    if names.len() > 0 {
        strip(strip(names[0]@, true), false)
    } else {
        Seq::empty()
    }
}

/// The short id: the first twelve characters.
pub open spec fn short_id_of(id: Seq<char>) -> Seq<char> {
    if id.len() > 12 {
        id.take(12)
    } else {
        id
    }
}

fn strippable_char(c: char, slash: bool) -> (r: bool)
    ensures
        r == strippable(c, slash),
{
    if slash {
        c == '/'
    } else {
        ('\t' <= c && c <= '\r') || c == ' ' || c == '\u{85}' || c == '\u{a0}' || c == '\u{1680}'
            || ('\u{2000}' <= c && c <= '\u{200a}') || c == '\u{2028}' || c == '\u{2029}'
            || c == '\u{202f}' || c == '\u{205f}' || c == '\u{3000}'
    }
}

fn strip_text(s: &str, slash: bool) -> (r: String)
    ensures
        r@ == strip(s@, slash),
{
    let n = s.unicode_len();
    let mut lo: usize = 0;
    assert(s@.subrange(0, n as int) =~= s@);
    while lo < n && strippable_char(s.get_char(lo), slash)
        invariant
            lo <= n,
            n == s@.len(),
            strip_start(s@, slash) == strip_start(s@.subrange(lo as int, n as int), slash),
        decreases n - lo,
    {
        assert(s@.subrange(lo as int, n as int).drop_first() =~= s@.subrange(lo + 1, n as int));
        lo = lo + 1;
    }
    let mut hi: usize = n;
    let ghost front = s@.subrange(lo as int, n as int);
    assert(strip_start(s@, slash) == front);
    assert(front.subrange(0, front.len() as int) =~= front);
    while hi > lo && strippable_char(s.get_char(hi - 1), slash)
        invariant
            lo <= hi <= n,
            n == s@.len(),
            front == s@.subrange(lo as int, n as int),
            strip_end(front, slash) == strip_end(s@.subrange(lo as int, hi as int), slash),
        decreases hi,
    {
        assert(s@.subrange(lo as int, hi as int).drop_last() =~= s@.subrange(lo as int, hi - 1));
        hi = hi - 1;
    }
    let part = s.substring_char(lo, hi);
    String::from_str(part)
}

/// The candidate's name from the names the runtime listed.
pub fn candidate_name(names: &Vec<String>) -> (r: String)
    ensures
        r@ == name_of(names@),
{
    if names.len() == 0 {
        return String::new();
    }
    let once = strip_text(names[0].as_str(), true);
    strip_text(once.as_str(), false)
}

/// The short form of a container id.
pub fn short_id(id: &str) -> (r: String)
    ensures
        r@ == short_id_of(id@),
{
    let n = id.unicode_len();
    let end: usize = if n > 12 { 12 } else { n };
    let part = id.substring_char(0, end);
    proof {
        if n <= 12 {
            assert(id@.subrange(0, n as int) =~= id@);
        }
    }
    String::from_str(part)
}

/// The list filters, by name and accepted values.
pub open spec fn filters_of(label: Seq<char>) -> Seq<(Seq<char>, Seq<Seq<char>>)> {
    let base = seq![
        ("health"@, seq!["unhealthy"@]),
        ("status"@, seq!["running"@, "exited"@, "dead"@]),
    ];
    if label == "all"@ {
        base
    } else {
        base.push(("label"@, seq![label]))
    }
}

pub open spec fn filters_view(f: Seq<(String, Vec<String>)>) -> Seq<(Seq<char>, Seq<Seq<char>>)> {
    f.map_values(|e: (String, Vec<String>)| (e.0@, e.1@.map_values(|v: String| v@)))
}

/// The filters of a discovery: unhealthy containers that are running, exited
/// or dead, carrying the label `label` unless it is `all`.
pub fn discovery_filters(label: &str) -> (r: Vec<(String, Vec<String>)>)
    ensures
        filters_view(r@) == filters_of(label@),
{
    let mut r: Vec<(String, Vec<String>)> = Vec::new();
    let mut health: Vec<String> = Vec::new();
    health.push(String::from_str("unhealthy"));
    let mut status: Vec<String> = Vec::new();
    status.push(String::from_str("running"));
    status.push(String::from_str("exited"));
    status.push(String::from_str("dead"));
    proof {
        assert(health@.map_values(|v: String| v@) =~= seq!["unhealthy"@]);
        assert(status@.map_values(|v: String| v@) =~= seq!["running"@, "exited"@, "dead"@]);
    }
    r.push((String::from_str("health"), health));
    r.push((String::from_str("status"), status));
    if !text_eq(label, "all") {
        let mut labels: Vec<String> = Vec::new();
        labels.push(String::from_str(label));
        proof {
            assert(labels@.map_values(|v: String| v@) =~= seq![label@]);
        }
        r.push((String::from_str("label"), labels));
    }
    proof {
        assert(filters_view(r@) =~= filters_of(label@));
    }
    r
}

} // verus!
