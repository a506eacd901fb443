//! The ordered, label-keyed tables that both sides keep, modelled as a sequence of
//! `(label, value)` entries in the order in which the table walks them.

use vstd::prelude::*;

use linked_hash_map::LinkedHashMap;

verus! {

#[verifier::external_type_specification]
#[verifier::external_body]
#[verifier::reject_recursive_types(K)]
#[verifier::reject_recursive_types(V)]
#[verifier::reject_recursive_types(S)]
pub struct ExLinkedHashMap<K, V, S>(LinkedHashMap<K, V, S>);

/// The value stored under `k`, if any.
pub open spec fn lookup<V>(s: Seq<(Seq<char>, V)>, k: Seq<char>) -> Option<V>
    decreases s.len(),
{
    if s.len() == 0 {
        None
    } else if s.last().0 == k {
        Some(s.last().1)
    } else {
        lookup(s.drop_last(), k)
    }
}

/// The entries with the value under `k` replaced by `v`, in place.
pub open spec fn set_value<V>(s: Seq<(Seq<char>, V)>, k: Seq<char>, v: V) -> Seq<(Seq<char>, V)> {
    s.map_values(|e: (Seq<char>, V)| if e.0 == k { (k, v) } else { e })
}

/// The entries without the one under `k`.
pub open spec fn remove_key<V>(s: Seq<(Seq<char>, V)>, k: Seq<char>) -> Seq<(Seq<char>, V)>
    decreases s.len(),
{
    if s.len() == 0 {
        s
    } else if s.last().0 == k {
        remove_key(s.drop_last(), k)
    } else {
        remove_key(s.drop_last(), k).push(s.last())
    }
}

/// Insert-or-replace: the entry under `k` leaves its place and `(k, v)` goes to the end.
pub open spec fn insert_entry<V>(s: Seq<(Seq<char>, V)>, k: Seq<char>, v: V) -> Seq<(Seq<char>, V)> {
    remove_key(s, k).push((k, v))
}

pub proof fn lemma_lookup_set<V>(s: Seq<(Seq<char>, V)>, k: Seq<char>, v: V, k2: Seq<char>)
    ensures
        lookup(set_value(s, k, v), k2) == (if k2 == k && lookup(s, k) is Some {
            Some(v)
        } else {
            lookup(s, k2)
        }),
    decreases s.len(),
{
    if s.len() > 0 {
        assert(set_value(s, k, v).drop_last() =~= set_value(s.drop_last(), k, v));
        lemma_lookup_set(s.drop_last(), k, v, k2);
    }
}

pub proof fn lemma_lookup_remove<V>(s: Seq<(Seq<char>, V)>, k: Seq<char>, k2: Seq<char>)
    ensures
        lookup(remove_key(s, k), k2) == (if k2 == k {
            None
        } else {
            lookup(s, k2)
        }),
    decreases s.len(),
{
    if s.len() > 0 {
        lemma_lookup_remove(s.drop_last(), k, k2);
        if s.last().0 != k {
            assert(remove_key(s, k).drop_last() =~= remove_key(s.drop_last(), k));
        }
    }
}

pub proof fn lemma_lookup_insert<V>(s: Seq<(Seq<char>, V)>, k: Seq<char>, v: V, k2: Seq<char>)
    ensures
        lookup(insert_entry(s, k, v), k2) == (if k2 == k {
            Some(v)
        } else {
            lookup(s, k2)
        }),
{
    let t = insert_entry(s, k, v);
    assert(t.drop_last() =~= remove_key(s, k));
    lemma_lookup_remove(s, k, k2);
}

} // verus!
