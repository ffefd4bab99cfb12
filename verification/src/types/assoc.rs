//! Association lists: sequences of key-value entries with distinct keys, and
//! the maps they stand for.

use vstd::prelude::*;

verus! {

/// The keys of a sequence of entries, slot by slot.
pub open spec fn slot_keys<K, V>(entries: Seq<(K, V)>) -> Seq<K> {
    entries.map_values(|e: (K, V)| e.0)
}

/// The map that a sequence of entries with distinct keys stands for.
pub open spec fn entries_map<K, V>(entries: Seq<(K, V)>) -> Map<K, V> {
    Map::new(
        |a: K| slot_keys(entries).contains(a),
        |a: K| entries[slot_keys(entries).index_of(a)].1,
    )
}

/// With distinct keys, each slot is found again by its key.
pub proof fn lemma_entries_lookup<K, V>(entries: Seq<(K, V)>, i: int)
    requires
        slot_keys(entries).no_duplicates(),
        0 <= i < entries.len(),
    ensures
        entries_map(entries).dom().contains(entries[i].0),
        entries_map(entries)[entries[i].0] == entries[i].1,
        slot_keys(entries).index_of(entries[i].0) == i,
{
    let keys = slot_keys(entries);
    assert(keys[i] == entries[i].0);
    assert(keys.contains(entries[i].0));
    let j = keys.index_of(entries[i].0);
    assert(0 <= j < keys.len() && keys[j] == entries[i].0);
}

/// Appending an entry under a fresh key inserts it.
pub proof fn lemma_entries_push<K, V>(entries: Seq<(K, V)>, key: K, value: V)
    requires
        slot_keys(entries).no_duplicates(),
        !slot_keys(entries).contains(key),
    ensures
        slot_keys(entries.push((key, value))) == slot_keys(entries).push(key),
        slot_keys(entries.push((key, value))).no_duplicates(),
        entries_map(entries.push((key, value))) == entries_map(entries).insert(key, value),
{
    let after = entries.push((key, value));
    let keys = slot_keys(entries);
    let keys_after = slot_keys(after);
    assert(keys_after =~= keys.push(key));
    assert forall|i: int, j: int|
        0 <= i < keys_after.len() && 0 <= j < keys_after.len() && i != j implies keys_after[i]
        != keys_after[j] by {
        if i < keys.len() && j < keys.len() {
            assert(keys[i] != keys[j]);
        } else if i < keys.len() {
            assert(keys.contains(keys[i]));
        } else {
            assert(keys.contains(keys[j]));
        }
    }
    assert forall|a: K| #[trigger]
        entries_map(after).dom().contains(a) == entries_map(entries).insert(
            key,
            value,
        ).dom().contains(a) by {
        if keys_after.contains(a) {
            let i = choose|i: int| 0 <= i < keys_after.len() && keys_after[i] == a;
            if i < keys.len() {
                assert(keys[i] == a);
            }
        }
        if keys.contains(a) {
            let i = choose|i: int| 0 <= i < keys.len() && keys[i] == a;
            assert(keys_after[i] == a);
        }
        if a == key {
            assert(keys_after[keys.len() as int] == a);
        }
    }
    assert forall|a: K| #[trigger]
        entries_map(after).dom().contains(a) implies entries_map(after)[a] == entries_map(
        entries,
    ).insert(key, value)[a] by {
        let i = keys_after.index_of(a);
        assert(0 <= i < keys_after.len() && keys_after[i] == a);
        lemma_entries_lookup(after, i);
        if i < keys.len() {
            lemma_entries_lookup(entries, i);
            assert(keys.contains(a));
        }
    }
    assert(entries_map(after) =~= entries_map(entries).insert(key, value));
}

/// Replacing the value in a slot inserts the new value under the slot's key.
pub proof fn lemma_entries_update<K, V>(entries: Seq<(K, V)>, i: int, value: V)
    requires
        slot_keys(entries).no_duplicates(),
        0 <= i < entries.len(),
    ensures
        slot_keys(entries.update(i, (entries[i].0, value))) == slot_keys(entries),
        entries_map(entries.update(i, (entries[i].0, value))) == entries_map(entries).insert(
            entries[i].0,
            value,
        ),
{
    let key = entries[i].0;
    let after = entries.update(i, (key, value));
    let keys = slot_keys(entries);
    assert(slot_keys(after) =~= keys);
    assert forall|a: K| #[trigger]
        entries_map(after).dom().contains(a) == entries_map(entries).insert(
            key,
            value,
        ).dom().contains(a) by {
        if a == key {
            assert(keys[i] == key);
        }
    }
    assert forall|a: K| #[trigger]
        entries_map(after).dom().contains(a) implies entries_map(after)[a] == entries_map(
        entries,
    ).insert(key, value)[a] by {
        let j = keys.index_of(a);
        assert(0 <= j < keys.len() && keys[j] == a);
        lemma_entries_lookup(after, j);
        lemma_entries_lookup(entries, j);
        assert(keys[i] == key);
        if j == i {
            assert(after[j].1 == value);
        } else {
            assert(keys[j] != keys[i]);
            assert(after[j] == entries[j]);
        }
    }
    assert(entries_map(after) =~= entries_map(entries).insert(key, value));
}

/// Taking a slot out removes its key.
pub proof fn lemma_entries_remove<K, V>(entries: Seq<(K, V)>, i: int)
    requires
        slot_keys(entries).no_duplicates(),
        0 <= i < entries.len(),
    ensures
        slot_keys(entries.remove(i)) == slot_keys(entries).remove(i),
        slot_keys(entries.remove(i)).no_duplicates(),
        entries_map(entries.remove(i)) == entries_map(entries).remove(entries[i].0),
{
    let key = entries[i].0;
    let after = entries.remove(i);
    let keys = slot_keys(entries);
    let keys_after = slot_keys(after);
    assert(keys_after =~= keys.remove(i));
    assert forall|x: int, y: int|
        0 <= x < keys_after.len() && 0 <= y < keys_after.len() && x != y implies keys_after[x]
        != keys_after[y] by {
        let xx = if x < i {
            x
        } else {
            x + 1
        };
        let yy = if y < i {
            y
        } else {
            y + 1
        };
        assert(keys_after[x] == keys[xx]);
        assert(keys_after[y] == keys[yy]);
    }
    assert forall|a: K| #[trigger]
        entries_map(after).dom().contains(a) == entries_map(entries).remove(key).dom().contains(
            a,
        ) by {
        if keys_after.contains(a) {
            let x = choose|x: int| 0 <= x < keys_after.len() && keys_after[x] == a;
            let xx = if x < i {
                x
            } else {
                x + 1
            };
            assert(keys[xx] == a);
            assert(keys[i] == key);
        }
        if keys.contains(a) && a != key {
            let x = choose|x: int| 0 <= x < keys.len() && keys[x] == a;
            assert(keys[i] == key);
            let y = if x < i {
                x
            } else {
                x - 1
            };
            assert(keys_after[y] == a);
        }
    }
    assert forall|a: K| #[trigger]
        entries_map(after).dom().contains(a) implies entries_map(after)[a] == entries_map(
        entries,
    ).remove(key)[a] by {
        let x = keys_after.index_of(a);
        assert(0 <= x < keys_after.len() && keys_after[x] == a);
        let xx = if x < i {
            x
        } else {
            x + 1
        };
        lemma_entries_lookup(after, x);
        lemma_entries_lookup(entries, xx);
    }
    assert(entries_map(after) =~= entries_map(entries).remove(key));
}

/// The keys of the map are the keys of the slots, and there are as many.
pub proof fn lemma_entries_dom<K, V>(entries: Seq<(K, V)>)
    requires
        slot_keys(entries).no_duplicates(),
    ensures
        entries_map(entries).dom() == slot_keys(entries).to_set(),
        entries_map(entries).dom().finite(),
        entries_map(entries).dom().len() == entries.len(),
{
    let keys = slot_keys(entries);
    assert(entries_map(entries).dom() =~= keys.to_set());
    keys.unique_seq_to_set();
    vstd::seq_lib::seq_to_set_is_finite(keys);
}

} // verus!
