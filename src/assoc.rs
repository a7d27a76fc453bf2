//! Association lists keyed by strings: a `Vec<(String, X)>` whose keys are
//! pairwise distinct stands for a map from key to value.

use vstd::prelude::*;

verus! {

/// The map an association list denotes. Entries apply in order, so a later
/// entry for a key overrides an earlier one.
pub open spec fn assoc<K, V>(s: Seq<(K, V)>) -> Map<K, V>
    decreases s.len(),
{
    if s.len() == 0 {
        Map::empty()
    } else {
        assoc(s.drop_last()).insert(s.last().0, s.last().1)
    }
}

/// No key occurs twice.
pub open spec fn unique_keys<K, V>(s: Seq<(K, V)>) -> bool {
    forall|i: int, j: int| 0 <= i < j < s.len() ==> s[i].0 != s[j].0
}

/// String-keyed entries seen through the views of their parts.
pub open spec fn entries_view<X: View>(v: Seq<(String, X)>) -> Seq<(Seq<char>, X::V)> {
    v.map_values(|p: (String, X)| (p.0@, p.1@))
}

/// The map of a list of entries with distinct keys.
pub open spec fn entries_map<X: View>(v: Seq<(String, X)>) -> Map<Seq<char>, X::V> {
    assoc(entries_view(v))
}

/// A list of entries is well formed when its keys are distinct.
pub open spec fn entries_wf<X: View>(v: Seq<(String, X)>) -> bool {
    unique_keys(entries_view(v))
}

/// A key is in the map exactly when some entry has it.
pub proof fn lemma_assoc_contains<K, V>(s: Seq<(K, V)>, k: K)
    ensures
        assoc(s).contains_key(k) <==> exists|i: int| 0 <= i < s.len() && s[i].0 == k,
    decreases s.len(),
{
    if s.len() > 0 {
        let d = s.drop_last();
        lemma_assoc_contains(d, k);
        if assoc(d).contains_key(k) {
            let i = choose|i: int| 0 <= i < d.len() && d[i].0 == k;
            assert(s[i].0 == k);
        }
        if exists|i: int| 0 <= i < s.len() && s[i].0 == k {
            let i = choose|i: int| 0 <= i < s.len() && s[i].0 == k;
            if i < s.len() - 1 {
                assert(d[i].0 == k);
            }
        }
    }
}

/// With distinct keys, each entry's key maps to that entry's value.
pub proof fn lemma_assoc_index<K, V>(s: Seq<(K, V)>, i: int)
    requires
        unique_keys(s),
        0 <= i < s.len(),
    ensures
        assoc(s).contains_key(s[i].0),
        assoc(s)[s[i].0] == s[i].1,
    decreases s.len(),
{
    if i < s.len() - 1 {
        let d = s.drop_last();
        assert(unique_keys(d)) by {
            assert forall|a: int, b: int| 0 <= a < b < d.len() implies d[a].0 != d[b].0 by {
                assert(d[a] == s[a] && d[b] == s[b]);
            }
        }
        assert(d[i] == s[i]);
        lemma_assoc_index(d, i);
        assert(s[i].0 != s[s.len() - 1].0);
    }
}

/// Appending an entry for a fresh key adds that key.
pub proof fn lemma_assoc_push<K, V>(s: Seq<(K, V)>, k: K, v: V)
    requires
        unique_keys(s),
        !assoc(s).contains_key(k),
    ensures
        unique_keys(s.push((k, v))),
        assoc(s.push((k, v))) == assoc(s).insert(k, v),
{
    let t = s.push((k, v));
    assert(t.drop_last() =~= s);
    lemma_assoc_contains(s, k);
    assert forall|a: int, b: int| 0 <= a < b < t.len() implies t[a].0 != t[b].0 by {
        if b == s.len() {
            assert(t[a] == s[a]);
        } else {
            assert(t[a] == s[a] && t[b] == s[b]);
        }
    }
}

/// Removing the entry at `i` removes its key.
pub proof fn lemma_assoc_remove<K, V>(s: Seq<(K, V)>, i: int)
    requires
        unique_keys(s),
        0 <= i < s.len(),
    ensures
        unique_keys(s.remove(i)),
        assoc(s.remove(i)) =~= assoc(s).remove(s[i].0),
{
    let t = s.remove(i);
    assert(forall|j: int| 0 <= j < i ==> t[j] == s[j]);
    assert(forall|j: int| i <= j < t.len() ==> t[j] == s[j + 1]);
    assert forall|a: int, b: int| 0 <= a < b < t.len() implies t[a].0 != t[b].0 by {
        let a2 = if a < i { a } else { a + 1 };
        let b2 = if b < i { b } else { b + 1 };
        assert(t[a] == s[a2] && t[b] == s[b2]);
    }
    let m = assoc(s).remove(s[i].0);
    assert forall|k: K| assoc(t).contains_key(k) <==> m.contains_key(k) by {
        lemma_assoc_contains(t, k);
        lemma_assoc_contains(s, k);
        if assoc(t).contains_key(k) {
            let j = choose|j: int| 0 <= j < t.len() && t[j].0 == k;
            let j2 = if j < i { j } else { j + 1 };
            assert(s[j2].0 == k && j2 != i);
        }
        if m.contains_key(k) {
            let j = choose|j: int| 0 <= j < s.len() && s[j].0 == k;
            assert(j != i);
            let j2 = if j < i { j } else { j - 1 };
            assert(t[j2].0 == k);
        }
    }
    assert forall|k: K| #[trigger] assoc(t).contains_key(k) implies assoc(t)[k] == m[k] by {
        lemma_assoc_contains(t, k);
        let j = choose|j: int| 0 <= j < t.len() && t[j].0 == k;
        let j2 = if j < i { j } else { j + 1 };
        lemma_assoc_index(t, j);
        lemma_assoc_index(s, j2);
    }
}

/// The position of `key` in `v`, if it is there.
pub(crate) fn find<X: View>(v: &Vec<(String, X)>, key: &String) -> (r: Option<usize>)
    requires
        entries_wf(v@),
    ensures
        match r {
            Some(i) => {
                &&& i < v.len()
                &&& v@[i as int].0@ == key@
                &&& entries_map(v@).contains_key(key@)
                &&& entries_map(v@)[key@] == v@[i as int].1@
            },
            None => !entries_map(v@).contains_key(key@),
        },
{
    let ghost s = entries_view(v@);
    let mut i: usize = 0;
    while i < v.len()
        invariant
            i <= v.len(),
            s == entries_view(v@),
            unique_keys(s),
            forall|j: int| 0 <= j < i ==> v@[j].0@ != key@,
        decreases v.len() - i,
    {
        if v[i].0 == *key {
            proof {
                lemma_assoc_index(s, i as int);
            }
            return Some(i);
        }
        i = i + 1;
    }
    proof {
        lemma_assoc_contains(s, key@);
        if entries_map(v@).contains_key(key@) {
            let j = choose|j: int| 0 <= j < s.len() && s[j].0 == key@;
            assert(v@[j].0@ == key@);
        }
    }
    None
}

/// Removes and returns the entry at `i`.
pub(crate) fn take_at<X: View>(v: &mut Vec<(String, X)>, i: usize) -> (r: (String, X))
    requires
        entries_wf(old(v)@),
        i < old(v).len(),
    ensures
        entries_wf(final(v)@),
        r == old(v)@[i as int],
        final(v)@ == old(v)@.remove(i as int),
        entries_map(final(v)@) == entries_map(old(v)@).remove(r.0@),
{
    let ghost s = old(v)@;
    let r = v.remove(i);
    proof {
        assert(entries_view(v@) =~= entries_view(s).remove(i as int));
        lemma_assoc_remove(entries_view(s), i as int);
    }
    r
}

/// Appends an entry for a key that is not there yet.
pub(crate) fn push_new<X: View>(v: &mut Vec<(String, X)>, key: String, x: X)
    requires
        entries_wf(old(v)@),
        !entries_map(old(v)@).contains_key(key@),
    ensures
        entries_wf(final(v)@),
        final(v)@ == old(v)@.push((key, x)),
        entries_map(final(v)@) == entries_map(old(v)@).insert(key@, x@),
{
    proof {
        assert(entries_view(old(v)@.push((key, x))) =~= entries_view(old(v)@).push((key@, x@)));
        lemma_assoc_push(entries_view(old(v)@), key@, x@);
    }
    v.push((key, x));
}

/// Sets `key` to `x`, replacing the entry already there.
pub(crate) fn put<X: View>(v: &mut Vec<(String, X)>, key: String, x: X)
    requires
        entries_wf(old(v)@),
    ensures
        entries_wf(final(v)@),
        entries_map(final(v)@) == entries_map(old(v)@).insert(key@, x@),
{
    let ghost m = entries_map(v@);
    match find(v, &key) {
        Some(i) => {
            let _ = take_at(v, i);
        },
        None => {},
    }
    proof {
        assert(entries_map(v@).insert(key@, x@) =~= m.insert(key@, x@));
    }
    push_new(v, key, x);
}

} // verus!
