//! Copying and combining the collections that commands carry.

use std::collections::HashSet;
use vstd::prelude::*;

verus! {

/// Once every item of `items` has been seen, what was seen is `items` as a set.
proof fn lemma_seen_all(items: Seq<u64>, i: int, seen: Set<u64>, all: Set<u64>)
    requires
        items.to_set() == all,
        forall|y: u64| #[trigger] seen.contains(y) <==> exists|j: int| 0 <= j < i && items[j] == y,
    ensures
        i == items.len() ==> seen == all,
{
    if i == items.len() {
        assert forall|y: u64| seen.contains(y) <==> all.contains(y) by {
            if all.contains(y) {
                assert(items.contains(y));
            }
        }
        assert(seen =~= all);
    }
}

/// Adds every member of `members` to `s`.
pub(crate) fn union_into(s: &mut HashSet<u64>, members: &HashSet<u64>)
    ensures
        final(s)@ == old(s)@.union(members@),
{
    let ghost s0 = s@;
    let ghost mut seen: Set<u64> = Set::empty();
    for x in it: members.iter()
        invariant
            s@ == s0.union(seen),
            it.seq().unref().to_set() == members@,
            forall|y: u64| #[trigger] seen.contains(y) <==> exists|j: int|
                0 <= j < it.index() && it.seq().unref()[j] == y,
            it.index() == it.seq().len() ==> seen == members@,
    {
        proof {
            seen = seen.insert(*x);
        }
        s.insert(*x);
        proof {
            assert(s@ =~= s0.union(seen));
            lemma_seen_all(it.seq().unref(), it.index() + 1, seen, members@);
        }
    }
}

/// Removes every member of `members` from `s`.
pub(crate) fn remove_all(s: &mut HashSet<u64>, members: &HashSet<u64>)
    ensures
        final(s)@ == old(s)@.difference(members@),
{
    let ghost s0 = s@;
    let ghost mut seen: Set<u64> = Set::empty();
    for x in it: members.iter()
        invariant
            s@ == s0.difference(seen),
            it.seq().unref().to_set() == members@,
            forall|y: u64| #[trigger] seen.contains(y) <==> exists|j: int|
                0 <= j < it.index() && it.seq().unref()[j] == y,
            it.index() == it.seq().len() ==> seen == members@,
    {
        proof {
            seen = seen.insert(*x);
        }
        s.remove(x);
        proof {
            assert(s@ =~= s0.difference(seen));
            lemma_seen_all(it.seq().unref(), it.index() + 1, seen, members@);
        }
    }
}

/// A new set with the members of `s`.
pub(crate) fn copy_set(s: &HashSet<u64>) -> (r: HashSet<u64>)
    ensures
        r@ == s@,
{
    let mut r = HashSet::new();
    union_into(&mut r, s);
    assert(r@ =~= s@);
    r
}

/// A new list with the entries of `f`.
pub(crate) fn copy_fields(f: &Vec<(String, String)>) -> (r: Vec<(String, String)>)
    ensures
        r@ == f@,
{
    let mut r: Vec<(String, String)> = Vec::new();
    let mut i: usize = 0;
    while i < f.len()
        invariant
            i <= f.len(),
            r@ == f@.take(i as int),
        decreases f.len() - i,
    {
        let name = f[i].0.clone();
        let value = f[i].1.clone();
        r.push((name, value));
        i = i + 1;
        assert(r@ =~= f@.take(i as int));
    }
    assert(f@.take(i as int) =~= f@);
    r
}

} // verus!
