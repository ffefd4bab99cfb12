//! The lexicographic order on digests, and sorting by it.

use vstd::prelude::*;
use vstd::relations::{sorted_by, total_ordering};
use vstd::seq_lib::{group_to_multiset_ensures, lemma_sorted_unique};

use super::hash::{bytes_le_from, hash_le};

verus! {

/// The order on digests as a relation.
pub open spec fn hash_order() -> spec_fn(super::hash::Hash, super::hash::Hash) -> bool {
    |a: super::hash::Hash, b: super::hash::Hash| hash_le(a, b)
}

proof fn lemma_bytes_le_refl(a: Seq<u8>, from: int)
    requires
        0 <= from,
    ensures
        bytes_le_from(a, a, from),
    decreases a.len() - from,
{
    if from < a.len() {
        lemma_bytes_le_refl(a, from + 1);
    }
}

proof fn lemma_bytes_le_total(a: Seq<u8>, b: Seq<u8>, from: int)
    requires
        0 <= from,
        a.len() == b.len(),
    ensures
        bytes_le_from(a, b, from) || bytes_le_from(b, a, from),
    decreases a.len() - from,
{
    if from < a.len() {
        lemma_bytes_le_total(a, b, from + 1);
    }
}

proof fn lemma_bytes_le_antisym(a: Seq<u8>, b: Seq<u8>, from: int)
    requires
        0 <= from,
        a.len() == b.len(),
        bytes_le_from(a, b, from),
        bytes_le_from(b, a, from),
    ensures
        forall|i: int| from <= i < a.len() ==> a[i] == b[i],
    decreases a.len() - from,
{
    if from < a.len() {
        lemma_bytes_le_antisym(a, b, from + 1);
    }
}

proof fn lemma_bytes_le_trans(a: Seq<u8>, b: Seq<u8>, c: Seq<u8>, from: int)
    requires
        0 <= from,
        a.len() == b.len(),
        b.len() == c.len(),
        bytes_le_from(a, b, from),
        bytes_le_from(b, c, from),
    ensures
        bytes_le_from(a, c, from),
    decreases a.len() - from,
{
    if from < a.len() {
        if a[from] == b[from] && b[from] == c[from] {
            lemma_bytes_le_trans(a, b, c, from + 1);
        }
    }
}

/// The lexicographic order on digests is a total order.
pub proof fn lemma_hash_order_total()
    ensures
        total_ordering(hash_order()),
{
    let r = hash_order();
    assert forall|x: super::hash::Hash| #[trigger] r(x, x) by {
        lemma_bytes_le_refl(x.0@, 0);
    }
    assert forall|x: super::hash::Hash, y: super::hash::Hash| #[trigger]
        r(x, y) && #[trigger] r(y, x) implies x == y by {
        lemma_bytes_le_antisym(x.0@, y.0@, 0);
        assert(x.0 =~= y.0);
    }
    assert forall|x: super::hash::Hash, y: super::hash::Hash, z: super::hash::Hash| #[trigger]
        r(x, y) && #[trigger] r(y, z) implies r(x, z) by {
        lemma_bytes_le_trans(x.0@, y.0@, z.0@, 0);
    }
    assert forall|x: super::hash::Hash, y: super::hash::Hash| #[trigger]
        r(x, y) || #[trigger] r(y, x) by {
        lemma_bytes_le_total(x.0@, y.0@, 0);
    }
}

/// Two sorted sequences of the same digests, each as often, are the same
/// sequence.
pub proof fn lemma_sorted_hashes_unique(x: Seq<super::hash::Hash>, y: Seq<super::hash::Hash>)
    requires
        sorted_by(x, hash_order()),
        sorted_by(y, hash_order()),
        x.to_multiset() == y.to_multiset(),
    ensures
        x == y,
{
    lemma_hash_order_total();
    lemma_sorted_unique(x, y, hash_order());
}

/// Sorts digests into lexicographic byte order.
pub fn sort_hashes(hashes: Vec<super::hash::Hash>) -> (sorted: Vec<super::hash::Hash>)
    ensures
        sorted@ == hashes@.sort_by(hash_order()),
        sorted_by(sorted@, hash_order()),
        sorted@.to_multiset() == hashes@.to_multiset(),
{
    broadcast use group_to_multiset_ensures;

    let mut out: Vec<super::hash::Hash> = Vec::new();
    let mut k: usize = 0;
    proof {
        lemma_hash_order_total();
        assert(hashes@.subrange(0, 0) =~= Seq::<super::hash::Hash>::empty());
    }
    while k < hashes.len()
        invariant
            0 <= k <= hashes@.len(),
            total_ordering(hash_order()),
            sorted_by(out@, hash_order()),
            out@.to_multiset() == hashes@.subrange(0, k as int).to_multiset(),
        decreases hashes@.len() - k,
    {
        let x = hashes[k];
        let mut pos: usize = 0;
        while pos < out.len() && out[pos].le(&x)
            invariant
                0 <= pos <= out@.len(),
                forall|j: int| 0 <= j < pos ==> hash_le(out@[j], x),
            decreases out@.len() - pos,
        {
            pos += 1;
        }
        let ghost before = out@;
        proof {
            let r = hash_order();
            assert forall|j: int| pos <= j < before.len() implies hash_le(x, #[trigger] before[j]) by {
                assert(!hash_le(before[pos as int], x));
                assert(r(before[pos as int], x) || r(x, before[pos as int]));
                if pos < j {
                    assert(r(before[pos as int], before[j]));
                }
                assert(r(x, before[pos as int]) && r(before[pos as int], before[j]) ==> r(
                    x,
                    before[j],
                ));
                assert(r(before[j], before[j]));
            }
            let after = before.insert(pos as int, x);
            assert forall|i: int, j: int| 0 <= i < j < after.len() implies #[trigger] r(
                after[i],
                after[j],
            ) by {
                if j < pos {
                    assert(r(before[i], before[j]));
                } else if j == pos {
                    assert(hash_le(before[i], x));
                } else if i < pos {
                    assert(r(before[i], before[j - 1]));
                } else if i == pos {
                    assert(hash_le(x, before[j - 1]));
                } else {
                    assert(r(before[i - 1], before[j - 1]));
                }
            }
            assert(hashes@.subrange(0, k as int + 1) =~= hashes@.subrange(0, k as int).push(x));
        }
        out.insert(pos, x);
        proof {
            let prefix = hashes@.subrange(0, k as int);
            vstd::seq_lib::to_multiset_insert(before, pos as int, x);
            vstd::seq_lib::to_multiset_build(prefix, x);
            assert(out@ == before.insert(pos as int, x));
            assert(out@.to_multiset() =~= prefix.push(x).to_multiset());
        }
        k += 1;
    }
    proof {
        assert(hashes@.subrange(0, hashes@.len() as int) =~= hashes@);
        hashes@.lemma_sort_by_ensures(hash_order());
        lemma_sorted_unique(out@, hashes@.sort_by(hash_order()), hash_order());
    }
    out
}

/// Sequences with the same elements, each once, hold each element equally
/// often.
pub proof fn lemma_same_set_same_multiset<A>(x: Seq<A>, y: Seq<A>)
    requires
        x.no_duplicates(),
        y.no_duplicates(),
        x.to_set() == y.to_set(),
    ensures
        x.to_multiset() == y.to_multiset(),
{
    broadcast use group_to_multiset_ensures;

    x.lemma_multiset_has_no_duplicates();
    y.lemma_multiset_has_no_duplicates();
    assert forall|a: A| x.to_multiset().count(a) == y.to_multiset().count(a) by {
        assert(x.contains(a) == x.to_set().contains(a));
        assert(y.contains(a) == y.to_set().contains(a));
        assert(x.contains(a) <==> x.to_multiset().count(a) > 0);
        assert(y.contains(a) <==> y.to_multiset().count(a) > 0);
        if x.contains(a) {
            assert(x.to_multiset().contains(a));
            assert(y.to_multiset().contains(a));
        }
    }
    assert(x.to_multiset() =~= y.to_multiset());
}

/// Mapping two sequences that hold each element equally often gives
/// sequences that do so too.
pub proof fn lemma_map_keeps_multiset<A, B>(x: Seq<A>, y: Seq<A>, f: spec_fn(A) -> B)
    requires
        x.to_multiset() == y.to_multiset(),
    ensures
        x.map_values(f).to_multiset() == y.map_values(f).to_multiset(),
    decreases x.len(),
{
    broadcast use group_to_multiset_ensures;

    assert(x.len() == y.len()) by {
        vstd::seq_lib::to_multiset_len(x);
        vstd::seq_lib::to_multiset_len(y);
    }
    if x.len() == 0 {
        assert(x.map_values(f) =~= y.map_values(f));
    } else {
        let last = x.last();
        let rest = x.drop_last();
        assert(x =~= rest.push(last));
        assert(x.contains(last));
        assert(x.to_multiset().count(last) > 0);
        assert(y.contains(last));
        let j = choose|j: int| 0 <= j < y.len() && y[j] == last;
        let others = y.remove(j);
        assert(rest.to_multiset() =~= x.to_multiset().remove(last)) by {
            assert(rest.push(last).to_multiset() =~= rest.to_multiset().insert(last));
        }
        assert(others.to_multiset() == y.to_multiset().remove(last));
        lemma_map_keeps_multiset(rest, others, f);
        assert(x.map_values(f) =~= rest.map_values(f).push(f(last)));
        assert(y.map_values(f) =~= others.map_values(f).insert(j, f(last)));
    }
}

} // verus!
