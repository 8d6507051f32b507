//! Search: a station matches a query when the query, case folded, occurs in its
//! case-folded title or tooltip. An empty query matches every station.
use vstd::prelude::*;
use crate::api::Station;

verus! {

/// The lower-case form of a text, as `str::to_lowercase` gives it.
pub uninterp spec fn lower_of(s: Seq<char>) -> Seq<char>;

/// Relies on `str::to_lowercase`: the result depends on the characters alone,
/// and the lower-case form of an empty text is empty.
#[verifier::external_body]
fn lowercase(s: &str) -> (r: Vec<char>)
    ensures
        r@ == lower_of(s@),
        s@.len() == 0 ==> r@.len() == 0,
{
    s.to_lowercase().chars().collect()
}

/// `needle` occurs in `hay` at position `i`.
pub open spec fn occurs_at(hay: Seq<char>, needle: Seq<char>, i: int) -> bool {
    0 <= i && i + needle.len() <= hay.len() && hay.subrange(i, i + needle.len()) == needle
}

/// `needle` occurs somewhere in `hay`.
pub open spec fn seq_contains(hay: Seq<char>, needle: Seq<char>) -> bool {
    exists|i: int| occurs_at(hay, needle, i)
}

/// Whether `needle` occurs in `hay`.
pub fn contains_chars(hay: &Vec<char>, needle: &Vec<char>) -> (r: bool)
    ensures
        r == seq_contains(hay@, needle@),
{
    let n = needle.len();
    let h = hay.len();
    if n > h {
        return false;
    }
    let last = h - n;
    let mut i: usize = 0;
    loop
        invariant
            n == needle@.len(),
            h == hay@.len(),
            n <= h,
            last == h - n,
            i <= last,
            forall|k: int| 0 <= k < i ==> !occurs_at(hay@, needle@, k),
        decreases last - i,
    {
        let mut j: usize = 0;
        let mut ok = true;
        while j < n && ok
            invariant
                n == needle@.len(),
                h == hay@.len(),
                i + n <= h,
                j <= n,
                forall|m: int| 0 <= m < j ==> hay@[i + m] == needle@[m],
                !ok ==> j < n && hay@[i + j] != needle@[j as int],
            decreases n - j + if ok {
                1int
            } else {
                0int
            },
        {
            if hay[i + j] != needle[j] {
                ok = false;
            } else {
                j += 1;
            }
        }
        if ok {
            assert(hay@.subrange(i as int, i + n) =~= needle@);
            assert(occurs_at(hay@, needle@, i as int));
            return true;
        }
        assert(!occurs_at(hay@, needle@, i as int)) by {
            assert(hay@.subrange(i as int, i + n)[j as int] != needle@[j as int]);
        }
        if i == last {
            assert forall|k: int| !occurs_at(hay@, needle@, k) by {
                if 0 <= k && k < i {
                }
            }
            return false;
        }
        i += 1;
    }
}

/// Whether a query that is already case folded occurs in a case-folded title or
/// tooltip.
pub fn matches_folded(title: &Vec<char>, tooltip: &Vec<char>, query: &Vec<char>) -> (r: bool)
    ensures
        r == (seq_contains(title@, query@) || seq_contains(tooltip@, query@)),
{
    contains_chars(title, query) || contains_chars(tooltip, query)
}

/// The station matches the query.
pub open spec fn station_matches(st: Station, query: Seq<char>) -> bool {
    ||| query.len() == 0
    ||| seq_contains(lower_of(st.title@), lower_of(query))
    ||| seq_contains(lower_of(st.tooltip@), lower_of(query))
}

/// The stations of `s` that match the query, in their order.
pub open spec fn filtered(s: Seq<Station>, query: Seq<char>) -> Seq<Station> {
    s.filter(|st: Station| station_matches(st, query))
}

/// Whether the station matches the query.
pub fn matches_query(st: &Station, query: &str) -> (r: bool)
    ensures
        r == station_matches(*st, query@),
{
    if query.unicode_len() == 0 {
        return true;
    }
    let q = lowercase(query);
    let title = lowercase(st.title.as_str());
    let tooltip = lowercase(st.tooltip.as_str());
    matches_folded(&title, &tooltip, &q)
}

/// The stations that match the query, in their order.
pub fn filter_stations(stations: &Vec<Station>, query: &str) -> (r: Vec<Station>)
    ensures
        r@ == filtered(stations@, query@),
{
    let ghost pred = |st: Station| station_matches(st, query@);
    let mut r: Vec<Station> = Vec::new();
    let mut i: usize = 0;
    proof {
        reveal(Seq::filter);
        assert(stations@.take(0) =~= Seq::<Station>::empty());
    }
    while i < stations.len()
        invariant
            i <= stations@.len(),
            pred == (|st: Station| station_matches(st, query@)),
            r@ == stations@.take(i as int).filter(pred),
        decreases stations@.len() - i,
    {
        let ghost before = stations@.take(i as int);
        assert(stations@.take(i + 1) =~= before.push(stations@[i as int]));
        proof {
            before.lemma_filter_push(stations@[i as int], pred);
        }
        if matches_query(&stations[i], query) {
            r.push(stations[i].clone());
        }
        i += 1;
    }
    assert(stations@.take(i as int) =~= stations@);
    r
}

} // verus!
