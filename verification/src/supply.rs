//! The sum of the amounts that a mapping holds.

use vstd::prelude::*;

verus! {

/// The amount that `m` holds under `key`; an empty slot holds zero.
pub open spec fn amount_at(m: Map<Seq<char>, nat>, key: Seq<char>) -> nat {
    if m.dom().contains(key) {
        m[key]
    } else {
        0
    }
}

/// The sum of all the amounts that `m` holds.
pub open spec fn total(m: Map<Seq<char>, nat>) -> nat
    decreases m.dom().len(),
    when m.dom().finite()
{
    if m.dom().len() == 0 {
        0
    } else {
        let key = m.dom().choose();
        m[key] + total(m.remove(key))
    }
}

/// The empty mapping sums to zero.
pub proof fn lemma_total_empty()
    ensures
        total(Map::<Seq<char>, nat>::empty()) == 0,
{
    assert(Map::<Seq<char>, nat>::empty().dom() =~= Set::<Seq<char>>::empty());
}

/// The sum is the amount under any one key plus the sum of the rest.
pub proof fn lemma_total_remove(m: Map<Seq<char>, nat>, key: Seq<char>)
    requires
        m.dom().finite(),
        m.dom().contains(key),
    ensures
        total(m) == m[key] + total(m.remove(key)),
    decreases m.dom().len(),
{
    let first = m.dom().choose();
    if first != key {
        assert(m.remove(first).dom() =~= m.dom().remove(first));
        assert(m.remove(key).dom() =~= m.dom().remove(key));
        lemma_total_remove(m.remove(first), key);
        lemma_total_remove(m.remove(key), first);
        assert(m.remove(first).remove(key) =~= m.remove(key).remove(first));
    }
}

/// Writing `value` under `key` changes the sum by the change in that slot.
pub proof fn lemma_total_insert(m: Map<Seq<char>, nat>, key: Seq<char>, value: nat)
    requires
        m.dom().finite(),
    ensures
        total(m.insert(key, value)) + amount_at(m, key) == total(m) + value,
{
    let after = m.insert(key, value);
    assert(after.dom() =~= m.dom().insert(key));
    lemma_total_remove(after, key);
    assert(after.remove(key) =~= m.remove(key));
    if m.dom().contains(key) {
        lemma_total_remove(m, key);
    } else {
        assert(m.remove(key) =~= m);
    }
}

} // verus!
