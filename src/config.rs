//! The favorites list: a user-curated sequence of stations, changed one station at
//! a time by toggling.
use vstd::prelude::*;
use crate::api::Station;

verus! {

/// Some station of `s` has the id `id`.
pub open spec fn has_id(s: Seq<Station>, id: usize) -> bool {
    exists|i: int| 0 <= i < s.len() && s[i].id == id
}

/// `i` is the first position of `s` that holds a station with the id `id`.
pub open spec fn first_with_id(s: Seq<Station>, id: usize, i: int) -> bool {
    &&& 0 <= i < s.len()
    &&& s[i].id == id
    &&& forall|j: int| 0 <= j < i ==> s[j].id != id
}

/// No id occurs twice in `s`.
pub open spec fn ids_unique(s: Seq<Station>) -> bool {
    forall|i: int, j: int| 0 <= i < j < s.len() ==> s[i].id != s[j].id
}

/// The ids of the stations of `s`, in order.
pub open spec fn id_seq(s: Seq<Station>) -> Seq<usize> {
    s.map_values(|x: Station| x.id)
}

/// The ids of the stations of `s`.
pub open spec fn ids(s: Seq<Station>) -> Set<usize> {
    id_seq(s).to_set()
}

/// The stations of `s`, in order, but those with the id `id`.
pub open spec fn without_id(s: Seq<Station>, id: usize) -> Seq<Station> {
    s.filter(|x: Station| x.id != id)
}

/// The favorites after toggling `st`: the first station with its id leaves, or,
/// where there is none, `st` is appended. The rest keeps its order.
pub open spec fn toggled(s: Seq<Station>, st: Station) -> Seq<Station> {
    if has_id(s, st.id) {
        s.remove(choose|i: int| first_with_id(s, st.id, i))
    } else {
        s.push(st)
    }
}

/// Where some station has the id `id`, a first one has it.
pub proof fn lemma_first_with_id(s: Seq<Station>, id: usize, j: int)
    requires
        0 <= j < s.len(),
        s[j].id == id,
    ensures
        exists|c: int| first_with_id(s, id, c),
    decreases j,
{
    if exists|k: int| 0 <= k < j && s[k].id == id {
        let k = choose|k: int| 0 <= k < j && s[k].id == id;
        lemma_first_with_id(s, id, k);
    } else {
        assert(first_with_id(s, id, j));
    }
}

/// Adds `station` to the favorites, or removes it where its id is there already.
pub fn toggle_to_favorite(favorites: &Vec<Station>, station: &Station) -> (r: Vec<Station>)
    ensures
        r@ == toggled(favorites@, *station),
{
    let mut parsed: Vec<Station> = favorites.clone();
    assert(parsed@ =~= favorites@) by {
        assert forall|k: int| 0 <= k < parsed@.len() implies parsed@[k] == favorites@[k] by {
            assert(cloned::<Station>(favorites@[k], parsed@[k]));
        }
    }
    let mut i: usize = 0;
    while i < parsed.len()
        invariant
            parsed@ == favorites@,
            i <= parsed@.len(),
            forall|j: int| 0 <= j < i ==> parsed@[j].id != station.id,
        decreases parsed@.len() - i,
    {
        if parsed[i].id == station.id {
            assert(first_with_id(favorites@, station.id, i as int));
            let ghost k = choose|k: int| first_with_id(favorites@, station.id, k);
            assert(k == i as int) by {
                if k < i {
                } else if k > i {
                }
            }
            parsed.remove(i);
            return parsed;
        }
        i += 1;
    }
    parsed.push(station.clone());
    parsed
}

/// Toggling the same station twice gives back the favorites: the same ids, and
/// the other stations in the same order. Where the station was not a favorite,
/// the list is exactly what it was.
pub proof fn lemma_toggle_twice(s: Seq<Station>, st: Station)
    requires
        ids_unique(s),
    ensures
        ids(toggled(toggled(s, st), st)) == ids(s),
        without_id(toggled(toggled(s, st), st), st.id) == without_id(s, st.id),
        !has_id(s, st.id) ==> toggled(toggled(s, st), st) == s,
{
    let p = |x: Station| x.id != st.id;
    if has_id(s, st.id) {
        let w = choose|i: int| 0 <= i < s.len() && s[i].id == st.id;
        assert(first_with_id(s, st.id, w)) by {
            assert forall|j: int| 0 <= j < w implies s[j].id != st.id by {
                assert(s[j].id != s[w].id);
            }
        }
        let i = choose|i: int| first_with_id(s, st.id, i);
        let t = s.remove(i);
        assert(!has_id(t, st.id)) by {
            if has_id(t, st.id) {
                let k = choose|k: int| 0 <= k < t.len() && t[k].id == st.id;
                if k < i {
                    assert(t[k] == s[k]);
                } else {
                    assert(t[k] == s[k + 1]);
                    assert(s[i].id != s[k + 1].id);
                }
            }
        }
        let u = t.push(st);
        assert(toggled(toggled(s, st), st) == u);
        assert(s =~= s.take(i) + seq![s[i]] + s.skip(i + 1));
        assert(t =~= s.take(i) + s.skip(i + 1));
        Seq::filter_distributes_over_add(s.take(i) + seq![s[i]], s.skip(i + 1), p);
        Seq::filter_distributes_over_add(s.take(i), seq![s[i]], p);
        Seq::filter_distributes_over_add(s.take(i), s.skip(i + 1), p);
        Seq::<Station>::empty().lemma_filter_push(s[i], p);
        assert(seq![s[i]] =~= Seq::<Station>::empty().push(s[i]));
        reveal(Seq::filter);
        assert(Seq::<Station>::empty().filter(p) =~= Seq::<Station>::empty());
        t.lemma_filter_push(st, p);
        assert(without_id(u, st.id) =~= without_id(s, st.id));
        assert(ids(u) =~= ids(s)) by {
            assert forall|x: usize| ids(u).contains(x) implies ids(s).contains(x) by {
                let k = choose|k: int| 0 <= k < u.len() && #[trigger] id_seq(u)[k] == x;
                if k < u.len() - 1 {
                    if k < i {
                        assert(id_seq(s)[k] == x);
                    } else {
                        assert(id_seq(s)[k + 1] == x);
                    }
                } else {
                    assert(id_seq(s)[i] == x);
                }
            }
            assert forall|x: usize| ids(s).contains(x) implies ids(u).contains(x) by {
                let k = choose|k: int| 0 <= k < s.len() && #[trigger] id_seq(s)[k] == x;
                if k < i {
                    assert(id_seq(u)[k] == x);
                } else if k == i {
                    assert(id_seq(u)[u.len() - 1] == x);
                } else {
                    assert(id_seq(u)[k - 1] == x);
                }
            }
        }
    } else {
        let t = s.push(st);
        assert(first_with_id(t, st.id, s.len() as int));
        let i = choose|i: int| first_with_id(t, st.id, i);
        assert(i == s.len()) by {
            if i < s.len() {
                assert(has_id(s, st.id));
            }
        }
        assert(has_id(t, st.id));
        assert(toggled(t, st) =~= s);
    }
}

} // verus!
